//! Build-time diagnostics and the accumulator that runs every fallible step and reports all
//! of their failures together.
use vstd::prelude::*;

verus! {

/// Where a diagnostic points in the macro's input.
#[derive(Clone, Copy, Debug, PartialEq, Eq, Structural)]
pub enum Anchor {
    /// The attribute's arguments as a whole.
    Attribute,
    /// One token of the attribute's arguments, by position.
    AttributeToken { index: usize },
    /// Just past the last token of the attribute's arguments.
    AttributeEnd,
    /// The `impl` keyword of the annotated block.
    ImplKeyword,
}

/// One error message tied to a place in the input.
#[derive(Clone, Debug, PartialEq, Eq)]
pub struct Diagnostic {
    pub anchor: Anchor,
    pub message: String,
}

impl View for Diagnostic {
    type V = (Anchor, Seq<char>);

    open spec fn view(&self) -> (Anchor, Seq<char>) {
        (self.anchor, self.message@)
    }
}

impl Diagnostic {
    pub fn new(anchor: Anchor, message: &str) -> (r: Diagnostic)
        ensures
            r@ == (anchor, message@),
    {
        Diagnostic { anchor, message: String::from_str(message) }
    }
}

/// The views of a list of diagnostics.
pub open spec fn diagnostics_view(s: Seq<Diagnostic>) -> Seq<(Anchor, Seq<char>)> {
    Seq::new(s.len(), |i: int| s[i]@)
}

/// The messages of `s`, in order, one per line.
pub open spec fn joined_messages(s: Seq<(Anchor, Seq<char>)>) -> Seq<char>
    decreases s.len(),
{
    if s.len() == 0 {
        Seq::empty()
    } else if s.len() == 1 {
        s[0].1
    } else {
        joined_messages(s.drop_last()) + seq!['\n'] + s.last().1
    }
}

/// A failure made of one or more diagnostics, in the order in which they were found.
#[derive(Debug, PartialEq, Eq)]
pub struct CombinedDiagnostic {
    errors: Vec<Diagnostic>,
}

impl View for CombinedDiagnostic {
    type V = Seq<(Anchor, Seq<char>)>;

    closed spec fn view(&self) -> Seq<(Anchor, Seq<char>)> {
        diagnostics_view(self.errors@)
    }
}

impl CombinedDiagnostic {
    /// A failure holds at least one diagnostic.
    #[verifier::type_invariant]
    spec fn never_empty(self) -> bool {
        self.errors.len() > 0
    }

    /// The diagnostics, in order; there is at least one.
    pub fn errors(&self) -> (r: &[Diagnostic])
        ensures
            diagnostics_view(r@) == self@,
            r@.len() > 0,
    {
        proof {
            use_type_invariant(self);
        }
        self.errors.as_slice()
    }

    /// A failure with the single diagnostic `message` at `anchor`.
    pub fn new(anchor: Anchor, message: &str) -> (r: CombinedDiagnostic)
        ensures
            r@ == seq![(anchor, message@)],
    {
        let d = Diagnostic::new(anchor, message);
        let r = CombinedDiagnostic { errors: vec![d] };
        assert(r@ =~= seq![(anchor, message@)]);
        r
    }

    /// The diagnostics of `self` followed by those of `other`.
    pub fn concat(self, other: CombinedDiagnostic) -> (r: CombinedDiagnostic)
        ensures
            r@ == self@ + other@,
    {
        proof {
            use_type_invariant(&self);
        }
        let ghost before = self@;
        let ghost added = other@;
        let CombinedDiagnostic { errors: mut first } = self;
        let CombinedDiagnostic { errors: mut second } = other;
        first.append(&mut second);
        let r = CombinedDiagnostic { errors: first };
        assert(r@ =~= before + added);
        r
    }

    /// Every message, in order, separated by line breaks.
    pub fn to_string(&self) -> (r: String)
        ensures
            r@ == joined_messages(self@),
    {
        proof {
            use_type_invariant(self);
        }
        let mut r = String::new();
        let mut i: usize = 0;
        while i < self.errors.len()
            invariant
                i <= self.errors.len(),
                r@ == joined_messages(self@.take(i as int)),
            decreases self.errors.len() - i,
        {
            proof {
                assert(self@.take(i + 1).drop_last() =~= self@.take(i as int));
            }
            if i > 0 {
                r.append("\n");
                proof {
                    reveal_strlit("\n");
                }
            }
            r.append(self.errors[i].message.as_str());
            i = i + 1;
        }
        assert(self@.take(i as int) =~= self@);
        r
    }
}

/// The diagnostics of a result: none when it succeeded.
pub open spec fn failures_of<T>(r: Result<T, CombinedDiagnostic>) -> Seq<(Anchor, Seq<char>)> {
    match r {
        Ok(_) => Seq::empty(),
        Err(e) => e@,
    }
}

/// Splits a result into its value and its failure; exactly one of them is present.
pub(crate) fn split<T>(r: Result<T, CombinedDiagnostic>) -> (p: (Option<T>, Option<CombinedDiagnostic>))
    ensures
        match r {
            Ok(v) => p.0 == Some(v) && p.1.is_none(),
            Err(e) => p.0.is_none() && p.1 == Some(e),
        },
{
    match r {
        Ok(v) => (Some(v), None),
        Err(e) => (None, Some(e)),
    }
}

/// The diagnostics held by an optional failure.
pub open spec fn failures_in(e: Option<CombinedDiagnostic>) -> Seq<(Anchor, Seq<char>)> {
    match e {
        Some(d) => d@,
        None => Seq::empty(),
    }
}

/// Joins two optional failures, those of `first` coming first.
pub(crate) fn merge(first: Option<CombinedDiagnostic>, second: Option<CombinedDiagnostic>) -> (r: Option<
    CombinedDiagnostic,
>)
    ensures
        r.is_none() <==> (first.is_none() && second.is_none()),
        failures_in(r) == failures_in(first) + failures_in(second),
{
    match first {
        None => {
            assert(Seq::<(Anchor, Seq<char>)>::empty() + failures_in(second) =~= failures_in(second));
            second
        },
        Some(e) => match second {
            None => {
                assert(e@ + Seq::<(Anchor, Seq<char>)>::empty() =~= e@);
                Some(e)
            },
            Some(o) => Some(e.concat(o)),
        },
    }
}

/// Runs the checks of two independent results together: the pair of their values when both
/// succeeded, otherwise one failure holding every diagnostic of both, in order.
pub fn accumulate2<A, B>(a: Result<A, CombinedDiagnostic>, b: Result<B, CombinedDiagnostic>) -> (r:
    Result<(A, B), CombinedDiagnostic>)
    ensures
        (a is Ok && b is Ok) ==> r == Ok::<(A, B), CombinedDiagnostic>((a->Ok_0, b->Ok_0)),
        !(a is Ok && b is Ok) ==> r is Err && r->Err_0@ == failures_of(a) + failures_of(b),
{
    let (x, ea) = split(a);
    let (y, eb) = split(b);
    match merge(ea, eb) {
        Some(e) => Err(e),
        None => Ok((x.unwrap(), y.unwrap())),
    }
}

/// Runs the checks of three independent results together: the triple of their values when
/// all succeeded, otherwise one failure holding every diagnostic of all three, in order.
pub fn accumulate3<A, B, C>(
    a: Result<A, CombinedDiagnostic>,
    b: Result<B, CombinedDiagnostic>,
    c: Result<C, CombinedDiagnostic>,
) -> (r: Result<(A, B, C), CombinedDiagnostic>)
    ensures
        (a is Ok && b is Ok && c is Ok) ==> r == Ok::<(A, B, C), CombinedDiagnostic>(
            (a->Ok_0, b->Ok_0, c->Ok_0),
        ),
        !(a is Ok && b is Ok && c is Ok) ==> r is Err && r->Err_0@ == failures_of(a) + failures_of(
            b,
        ) + failures_of(c),
{
    let (x, ea) = split(a);
    let (y, eb) = split(b);
    let (z, ec) = split(c);
    match merge(merge(ea, eb), ec) {
        Some(e) => Err(e),
        None => Ok((x.unwrap(), y.unwrap(), z.unwrap())),
    }
}

} // verus!
