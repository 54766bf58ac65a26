//! A model of the Rust type expressions that the generator reads and writes, and the
//! rewriting of a named lifetime throughout one.
//!
//! The shapes that the rewriting looks into are references, paths with generic arguments,
//! function pointers and tuples; every other shape is kept as its source text.
use vstd::prelude::*;

verus! {

/// A Rust type expression.
#[derive(Debug, PartialEq, Eq)]
pub enum TypeExpr {
    /// `&'a mut T`; `lifetime` holds the lifetime with its apostrophe.
    Reference { lifetime: Option<String>, mutability: bool, elem: Box<TypeExpr> },
    /// A path such as `a::B<'a, T>`.
    Path { path: PathExpr },
    /// A function pointer: `prefix` is the text before the parameters (`fn`,
    /// `unsafe extern "C" fn`, ...); parameter names are not kept, as they do not change the
    /// type.
    BareFn { prefix: String, inputs: Vec<TypeExpr>, output: Option<Box<TypeExpr>> },
    /// `(A, B, ...)`.
    Tuple { elems: Vec<TypeExpr> },
    /// Any other shape, by its source text.
    Verbatim { text: String },
}

/// A path: segments separated by `::`.
#[derive(Debug, PartialEq, Eq)]
pub struct PathExpr {
    pub leading_colon: bool,
    pub segments: Vec<PathSegment>,
}

/// One segment of a path; `arguments` holds the `<...>` arguments when there are some.
/// Parenthesized arguments (`Fn(A) -> B`) are kept as part of `ident`.
#[derive(Debug, PartialEq, Eq)]
pub struct PathSegment {
    pub ident: String,
    pub arguments: Option<Vec<GenericArgument>>,
}

/// One `<...>` argument of a path segment.
#[derive(Debug, PartialEq, Eq)]
pub enum GenericArgument {
    /// A lifetime, with its apostrophe.
    Lifetime { name: String },
    Type { ty: TypeExpr },
    /// Any other argument (a constant, an associated type binding, ...), by its source text.
    Verbatim { text: String },
}

/// The mathematical value of a [`TypeExpr`].
pub enum TypeModel {
    Reference { lifetime: Option<Seq<char>>, mutability: bool, elem: Box<TypeModel> },
    Path { path: PathModel },
    BareFn { prefix: Seq<char>, inputs: Seq<TypeModel>, output: Option<Box<TypeModel>> },
    Tuple { elems: Seq<TypeModel> },
    Verbatim { text: Seq<char> },
}

pub struct PathModel {
    pub leading_colon: bool,
    pub segments: Seq<SegmentModel>,
}

pub struct SegmentModel {
    pub ident: Seq<char>,
    pub arguments: Option<Seq<ArgumentModel>>,
}

pub enum ArgumentModel {
    Lifetime { name: Seq<char> },
    Type { ty: TypeModel },
    Verbatim { text: Seq<char> },
}

pub open spec fn opt_string_view(o: Option<String>) -> Option<Seq<char>> {
    match o {
        Some(s) => Some(s@),
        None => None,
    }
}

pub open spec fn type_view(t: TypeExpr) -> TypeModel
    decreases t,
{
    match t {
        TypeExpr::Reference { lifetime, mutability, elem } => TypeModel::Reference {
            lifetime: opt_string_view(lifetime),
            mutability,
            elem: Box::new(type_view(*elem)),
        },
        TypeExpr::Path { path } => TypeModel::Path { path: path_view(path) },
        TypeExpr::BareFn { prefix, inputs, output } => TypeModel::BareFn {
            prefix: prefix@,
            inputs: types_view(inputs@),
            output: match output {
                Some(o) => Some(Box::new(type_view(*o))),
                None => None,
            },
        },
        TypeExpr::Tuple { elems } => TypeModel::Tuple { elems: types_view(elems@) },
        TypeExpr::Verbatim { text } => TypeModel::Verbatim { text: text@ },
    }
}

pub open spec fn types_view(s: Seq<TypeExpr>) -> Seq<TypeModel>
    decreases s,
{
    if s.len() == 0 {
        Seq::empty()
    } else {
        types_view(s.drop_last()).push(type_view(s.last()))
    }
}

pub open spec fn path_view(p: PathExpr) -> PathModel
    decreases p,
{
    PathModel { leading_colon: p.leading_colon, segments: segments_view(p.segments@) }
}

pub open spec fn segments_view(s: Seq<PathSegment>) -> Seq<SegmentModel>
    decreases s,
{
    if s.len() == 0 {
        Seq::empty()
    } else {
        let seg = s.last();
        segments_view(s.drop_last()).push(
            SegmentModel {
                ident: seg.ident@,
                arguments: match seg.arguments {
                    Some(a) => Some(arguments_view(a@)),
                    None => None,
                },
            },
        )
    }
}

pub open spec fn argument_view(a: GenericArgument) -> ArgumentModel
    decreases a,
{
    match a {
        GenericArgument::Lifetime { name } => ArgumentModel::Lifetime { name: name@ },
        GenericArgument::Type { ty } => ArgumentModel::Type { ty: type_view(ty) },
        GenericArgument::Verbatim { text } => ArgumentModel::Verbatim { text: text@ },
    }
}

pub open spec fn arguments_view(s: Seq<GenericArgument>) -> Seq<ArgumentModel>
    decreases s,
{
    if s.len() == 0 {
        Seq::empty()
    } else {
        arguments_view(s.drop_last()).push(argument_view(s.last()))
    }
}

impl View for TypeExpr {
    type V = TypeModel;

    open spec fn view(&self) -> TypeModel {
        type_view(*self)
    }
}

impl View for PathExpr {
    type V = PathModel;

    open spec fn view(&self) -> PathModel {
        path_view(*self)
    }
}

/// `t` with every occurrence of the lifetime `old` in a reference, a path argument, a
/// function pointer's parameters or result, or a tuple element, replaced by `new`.
pub open spec fn rewrite(t: TypeModel, old: Seq<char>, new: Seq<char>) -> TypeModel
    decreases t,
{
    match t {
        TypeModel::Reference { lifetime, mutability, elem } => TypeModel::Reference {
            lifetime: if lifetime == Some(old) {
                Some(new)
            } else {
                lifetime
            },
            mutability,
            elem: Box::new(rewrite(*elem, old, new)),
        },
        TypeModel::Path { path } => TypeModel::Path { path: rewrite_path(path, old, new) },
        TypeModel::BareFn { prefix, inputs, output } => TypeModel::BareFn {
            prefix,
            inputs: rewrite_all(inputs, old, new),
            output: match output {
                Some(o) => Some(Box::new(rewrite(*o, old, new))),
                None => None,
            },
        },
        TypeModel::Tuple { elems } => TypeModel::Tuple { elems: rewrite_all(elems, old, new) },
        TypeModel::Verbatim { .. } => t,
    }
}

pub open spec fn rewrite_all(s: Seq<TypeModel>, old: Seq<char>, new: Seq<char>) -> Seq<TypeModel>
    decreases s,
{
    if s.len() == 0 {
        Seq::empty()
    } else {
        rewrite_all(s.drop_last(), old, new).push(rewrite(s.last(), old, new))
    }
}

pub open spec fn rewrite_path(p: PathModel, old: Seq<char>, new: Seq<char>) -> PathModel
    decreases p,
{
    PathModel { leading_colon: p.leading_colon, segments: rewrite_segments(p.segments, old, new) }
}

pub open spec fn rewrite_segments(s: Seq<SegmentModel>, old: Seq<char>, new: Seq<char>) -> Seq<
    SegmentModel,
>
    decreases s,
{
    if s.len() == 0 {
        Seq::empty()
    } else {
        let seg = s.last();
        rewrite_segments(s.drop_last(), old, new).push(
            SegmentModel {
                ident: seg.ident,
                arguments: match seg.arguments {
                    Some(a) => Some(rewrite_arguments(a, old, new)),
                    None => None,
                },
            },
        )
    }
}

pub open spec fn rewrite_argument(a: ArgumentModel, old: Seq<char>, new: Seq<char>) -> ArgumentModel
    decreases a,
{
    match a {
        ArgumentModel::Lifetime { name } => ArgumentModel::Lifetime {
            name: if name == old {
                new
            } else {
                name
            },
        },
        ArgumentModel::Type { ty } => ArgumentModel::Type { ty: rewrite(ty, old, new) },
        ArgumentModel::Verbatim { .. } => a,
    }
}

pub open spec fn rewrite_arguments(s: Seq<ArgumentModel>, old: Seq<char>, new: Seq<char>) -> Seq<
    ArgumentModel,
>
    decreases s,
{
    if s.len() == 0 {
        Seq::empty()
    } else {
        rewrite_arguments(s.drop_last(), old, new).push(rewrite_argument(s.last(), old, new))
    }
}

fn copy_string(s: &String) -> (r: String)
    ensures
        r@ == s@,
{
    s.clone()
}

fn rewrite_type(t: &TypeExpr, old: &String, new: &String) -> (r: TypeExpr)
    ensures
        r@ == rewrite(t@, old@, new@),
    decreases t,
{
    match t {
        TypeExpr::Reference { lifetime, mutability, elem } => {
            let lt = match lifetime {
                Some(l) => if *l == *old {
                    Some(copy_string(new))
                } else {
                    Some(copy_string(l))
                },
                None => None,
            };
            let e = rewrite_type(elem, old, new);
            TypeExpr::Reference { lifetime: lt, mutability: *mutability, elem: Box::new(e) }
        },
        TypeExpr::Path { path } => TypeExpr::Path { path: rewrite_path_expr(path, old, new) },
        TypeExpr::BareFn { prefix, inputs, output } => {
            let ins = rewrite_types(inputs, old, new);
            let out = match output {
                Some(o) => Some(Box::new(rewrite_type(o, old, new))),
                None => None,
            };
            TypeExpr::BareFn { prefix: copy_string(prefix), inputs: ins, output: out }
        },
        TypeExpr::Tuple { elems } => TypeExpr::Tuple { elems: rewrite_types(elems, old, new) },
        TypeExpr::Verbatim { text } => TypeExpr::Verbatim { text: copy_string(text) },
    }
}

fn rewrite_types(s: &Vec<TypeExpr>, old: &String, new: &String) -> (r: Vec<TypeExpr>)
    ensures
        types_view(r@) == rewrite_all(types_view(s@), old@, new@),
    decreases s,
{
    let mut out: Vec<TypeExpr> = Vec::new();
    let mut i: usize = 0;
    while i < s.len()
        invariant
            i <= s.len(),
            types_view(out@) == rewrite_all(types_view(s@.take(i as int)), old@, new@),
        decreases s.len() - i,
    {
        proof {
            assert(decreases_to!(s => s[i as int]));
        }
        let t = rewrite_type(&s[i], old, new);
        let ghost prev = out@;
        out.push(t);
        proof {
            assert(out@.drop_last() =~= prev);
            assert(s@.take(i + 1).drop_last() =~= s@.take(i as int));
            let v = types_view(s@.take(i as int));
            assert(types_view(s@.take(i + 1)) == v.push(type_view(s@[i as int])));
            assert(v.push(type_view(s@[i as int])).drop_last() =~= v);
        }
        i = i + 1;
    }
    assert(s@.take(i as int) =~= s@);
    out
}

fn rewrite_path_expr(p: &PathExpr, old: &String, new: &String) -> (r: PathExpr)
    ensures
        r@ == rewrite_path(p@, old@, new@),
    decreases p,
{
    PathExpr { leading_colon: p.leading_colon, segments: rewrite_segment_list(&p.segments, old, new) }
}

fn rewrite_segment_list(s: &Vec<PathSegment>, old: &String, new: &String) -> (r: Vec<PathSegment>)
    ensures
        segments_view(r@) == rewrite_segments(segments_view(s@), old@, new@),
    decreases s,
{
    let mut out: Vec<PathSegment> = Vec::new();
    let mut i: usize = 0;
    while i < s.len()
        invariant
            i <= s.len(),
            segments_view(out@) == rewrite_segments(segments_view(s@.take(i as int)), old@, new@),
        decreases s.len() - i,
    {
        let seg = &s[i];
        proof {
            assert(decreases_to!(s => s[i as int]));
        }
        let arguments = match &seg.arguments {
            Some(a) => {
                proof {
                    assert(decreases_to!(s[i as int] => s[i as int].arguments));
                }
                Some(rewrite_argument_list(a, old, new))
            },
            None => None,
        };
        let ghost prev = out@;
        out.push(PathSegment { ident: copy_string(&seg.ident), arguments });
        proof {
            assert(out@.drop_last() =~= prev);
            assert(s@.take(i + 1).drop_last() =~= s@.take(i as int));
            let v = segments_view(s@.take(i as int));
            assert(s@.take(i + 1).last() == s@[i as int]);
            let sv = segments_view(s@.take(i + 1));
            assert(sv.drop_last() =~= v);
            assert(segments_view(out@).drop_last() =~= segments_view(prev));
        }
        i = i + 1;
    }
    assert(s@.take(i as int) =~= s@);
    out
}

fn rewrite_argument_list(s: &Vec<GenericArgument>, old: &String, new: &String) -> (r: Vec<
    GenericArgument,
>)
    ensures
        arguments_view(r@) == rewrite_arguments(arguments_view(s@), old@, new@),
    decreases s,
{
    let mut out: Vec<GenericArgument> = Vec::new();
    let mut i: usize = 0;
    while i < s.len()
        invariant
            i <= s.len(),
            arguments_view(out@) == rewrite_arguments(arguments_view(s@.take(i as int)), old@, new@),
        decreases s.len() - i,
    {
        proof {
            assert(decreases_to!(s => s[i as int]));
        }
        let a = match &s[i] {
            GenericArgument::Lifetime { name } => if *name == *old {
                GenericArgument::Lifetime { name: copy_string(new) }
            } else {
                GenericArgument::Lifetime { name: copy_string(name) }
            },
            GenericArgument::Type { ty } => GenericArgument::Type { ty: rewrite_type(ty, old, new) },
            GenericArgument::Verbatim { text } => GenericArgument::Verbatim { text: copy_string(text) },
        };
        assert(argument_view(a) == rewrite_argument(argument_view(s@[i as int]), old@, new@));
        let ghost prev = out@;
        out.push(a);
        proof {
            assert(out@.drop_last() =~= prev);
            assert(s@.take(i + 1).drop_last() =~= s@.take(i as int));
            let v = arguments_view(s@.take(i as int));
            assert(arguments_view(s@.take(i + 1)) == v.push(argument_view(s@[i as int])));
            assert(v.push(argument_view(s@[i as int])).drop_last() =~= v);
            let rv = rewrite_arguments(v, old@, new@);
            assert(rewrite_arguments(v.push(argument_view(s@[i as int])), old@, new@) == rv.push(
                rewrite_argument(argument_view(s@[i as int]), old@, new@),
            ));
            assert(arguments_view(out@) == arguments_view(prev).push(argument_view(a)));
        }
        i = i + 1;
    }
    assert(s@.take(i as int) =~= s@);
    out
}

/// Replaces the lifetime `old_lifetime` by `new_lifetime` throughout `ty` (lifetimes are
/// written with their apostrophe, as in `'a`).
pub fn replace_lifetime_in_type(ty: &mut TypeExpr, old_lifetime: &str, new_lifetime: &str)
    ensures
        final(ty)@ == rewrite(old(ty)@, old_lifetime@, new_lifetime@),
{
    let r = ty.with_lifetime_replaced(old_lifetime, new_lifetime);
    *ty = r;
}

/// The first lifetime among the `<...>` arguments of `s`, taken in order.
pub open spec fn first_lifetime_argument(s: Seq<ArgumentModel>) -> Option<Seq<char>>
    decreases s.len(),
{
    if s.len() == 0 {
        None
    } else if s[0] is Lifetime {
        Some(s[0]->Lifetime_name)
    } else {
        first_lifetime_argument(s.skip(1))
    }
}

/// The first lifetime among the arguments of the segments `s`, taken in order.
pub open spec fn first_lifetime_in_segments(s: Seq<SegmentModel>) -> Option<Seq<char>>
    decreases s.len(),
{
    if s.len() == 0 {
        None
    } else {
        match s[0].arguments {
            Some(a) if first_lifetime_argument(a).is_some() => first_lifetime_argument(a),
            _ => first_lifetime_in_segments(s.skip(1)),
        }
    }
}

/// The first lifetime argument of the path `p`, if it has one.
pub open spec fn path_lifetime(p: PathModel) -> Option<Seq<char>> {
    first_lifetime_in_segments(p.segments)
}

proof fn lemma_segments_view_index(s: Seq<PathSegment>, i: int)
    requires
        0 <= i < s.len(),
    ensures
        segments_view(s).len() == s.len(),
        segments_view(s)[i].arguments == (match s[i].arguments {
            Some(a) => Some(arguments_view(a@)),
            None => None,
        }),
    decreases s.len(),
{
    if i < s.len() - 1 {
        lemma_segments_view_index(s.drop_last(), i);
    }
    lemma_segments_view_len(s);
}

proof fn lemma_segments_view_len(s: Seq<PathSegment>)
    ensures
        segments_view(s).len() == s.len(),
    decreases s.len(),
{
    if s.len() > 0 {
        lemma_segments_view_len(s.drop_last());
    }
}

proof fn lemma_segments_view_skip(s: Seq<PathSegment>, i: int)
    requires
        0 <= i <= s.len(),
    ensures
        segments_view(s.skip(i)) == segments_view(s).skip(i),
    decreases s.len(),
{
    lemma_segments_view_len(s);
    if s.len() > 0 && i < s.len() {
        lemma_segments_view_skip(s.drop_last(), i);
        assert(s.skip(i).drop_last() =~= s.drop_last().skip(i));
        lemma_segments_view_len(s.drop_last());
        assert(segments_view(s).skip(i) =~= segments_view(s.drop_last()).skip(i).push(
            segments_view(s).last(),
        ));
    } else {
        assert(s.skip(i) =~= Seq::<PathSegment>::empty());
        assert(segments_view(s).skip(i) =~= Seq::<SegmentModel>::empty());
    }
}

proof fn lemma_arguments_view_len(s: Seq<GenericArgument>)
    ensures
        arguments_view(s).len() == s.len(),
    decreases s.len(),
{
    if s.len() > 0 {
        lemma_arguments_view_len(s.drop_last());
    }
}

proof fn lemma_arguments_view_index(s: Seq<GenericArgument>, i: int)
    requires
        0 <= i < s.len(),
    ensures
        arguments_view(s)[i] == argument_view(s[i]),
    decreases s.len(),
{
    lemma_arguments_view_len(s.drop_last());
    if i < s.len() - 1 {
        lemma_arguments_view_index(s.drop_last(), i);
    }
}

proof fn lemma_arguments_view_skip(s: Seq<GenericArgument>, i: int)
    requires
        0 <= i <= s.len(),
    ensures
        arguments_view(s.skip(i)) == arguments_view(s).skip(i),
    decreases s.len(),
{
    lemma_arguments_view_len(s);
    if s.len() > 0 && i < s.len() {
        lemma_arguments_view_skip(s.drop_last(), i);
        assert(s.skip(i).drop_last() =~= s.drop_last().skip(i));
        lemma_arguments_view_len(s.drop_last());
        assert(arguments_view(s).skip(i) =~= arguments_view(s.drop_last()).skip(i).push(
            arguments_view(s).last(),
        ));
    } else {
        assert(s.skip(i) =~= Seq::<GenericArgument>::empty());
        assert(arguments_view(s).skip(i) =~= Seq::<ArgumentModel>::empty());
    }
}

/// The first lifetime among the arguments `args`, if any.
fn first_lifetime_of(args: &Vec<GenericArgument>) -> (r: Option<String>)
    ensures
        opt_string_view(r) == first_lifetime_argument(arguments_view(args@)),
{
    let mut i: usize = 0;
    proof {
        lemma_arguments_view_skip(args@, 0);
        assert(args@.skip(0) =~= args@);
    }
    while i < args.len()
        invariant
            i <= args.len(),
            first_lifetime_argument(arguments_view(args@)) == first_lifetime_argument(
                arguments_view(args@.skip(i as int)),
            ),
        decreases args.len() - i,
    {
        proof {
            lemma_arguments_view_skip(args@, i as int);
            lemma_arguments_view_skip(args@, i + 1);
            lemma_arguments_view_index(args@, i as int);
            lemma_arguments_view_len(args@);
            let v = arguments_view(args@).skip(i as int);
            assert(v[0] == arguments_view(args@)[i as int]);
            assert(v.skip(1) =~= arguments_view(args@).skip(i + 1));
        }
        match &args[i] {
            GenericArgument::Lifetime { name } => {
                return Some(copy_string(name));
            },
            _ => {},
        }
        i = i + 1;
    }
    proof {
        lemma_arguments_view_skip(args@, i as int);
        lemma_arguments_view_len(args@);
    }
    None
}

/// The first lifetime argument of `path`, scanning its segments and their `<...>` arguments
/// in order.
pub fn get_path_lifetime(path: &PathExpr) -> (r: Option<String>)
    ensures
        opt_string_view(r) == path_lifetime(path@),
{
    let segs = &path.segments;
    let mut i: usize = 0;
    proof {
        lemma_segments_view_skip(segs@, 0);
        assert(segs@.skip(0) =~= segs@);
    }
    while i < segs.len()
        invariant
            segs == path.segments,
            i <= segs.len(),
            path_lifetime(path@) == first_lifetime_in_segments(segments_view(segs@.skip(i as int))),
        decreases segs.len() - i,
    {
        proof {
            lemma_segments_view_skip(segs@, i as int);
            lemma_segments_view_skip(segs@, i + 1);
            lemma_segments_view_index(segs@, i as int);
            let v = segments_view(segs@).skip(i as int);
            assert(v[0] == segments_view(segs@)[i as int]);
            assert(v.skip(1) =~= segments_view(segs@).skip(i + 1));
        }
        match &segs[i].arguments {
            Some(a) => {
                let found = first_lifetime_of(a);
                if found.is_some() {
                    return found;
                }
            },
            None => {},
        }
        i = i + 1;
    }
    proof {
        lemma_segments_view_skip(segs@, i as int);
        lemma_segments_view_len(segs@);
    }
    None
}

/// The lifetime `l` occurs in `t` at a place that [`rewrite`] looks into.
pub open spec fn mentions(t: TypeModel, l: Seq<char>) -> bool
    decreases t,
{
    match t {
        TypeModel::Reference { lifetime, elem, .. } => lifetime == Some(l) || mentions(*elem, l),
        TypeModel::Path { path } => mentions_in_segments(path.segments, l),
        TypeModel::BareFn { inputs, output, .. } => mentions_in_all(inputs, l) || match output {
            Some(o) => mentions(*o, l),
            None => false,
        },
        TypeModel::Tuple { elems } => mentions_in_all(elems, l),
        TypeModel::Verbatim { .. } => false,
    }
}

pub open spec fn mentions_in_all(s: Seq<TypeModel>, l: Seq<char>) -> bool
    decreases s,
{
    s.len() > 0 && (mentions_in_all(s.drop_last(), l) || mentions(s.last(), l))
}

pub open spec fn mentions_in_segments(s: Seq<SegmentModel>, l: Seq<char>) -> bool
    decreases s,
{
    s.len() > 0 && (mentions_in_segments(s.drop_last(), l) || match s.last().arguments {
        Some(a) => mentions_in_arguments(a, l),
        None => false,
    })
}

pub open spec fn mentions_in_argument(a: ArgumentModel, l: Seq<char>) -> bool
    decreases a,
{
    match a {
        ArgumentModel::Lifetime { name } => name == l,
        ArgumentModel::Type { ty } => mentions(ty, l),
        ArgumentModel::Verbatim { .. } => false,
    }
}

pub open spec fn mentions_in_arguments(s: Seq<ArgumentModel>, l: Seq<char>) -> bool
    decreases s,
{
    s.len() > 0 && (mentions_in_arguments(s.drop_last(), l) || mentions_in_argument(s.last(), l))
}

proof fn lemma_unchanged(t: TypeModel, old: Seq<char>, new: Seq<char>)
    requires
        old == new || !mentions(t, old),
    ensures
        rewrite(t, old, new) == t,
    decreases t,
{
    match t {
        TypeModel::Reference { lifetime, mutability, elem } => {
            lemma_unchanged(*elem, old, new);
            assert(rewrite(t, old, new) == TypeModel::Reference {
                lifetime: if lifetime == Some(old) { Some(new) } else { lifetime },
                mutability,
                elem: Box::new(rewrite(*elem, old, new)),
            });
            assert(rewrite(*elem, old, new) == *elem);
            assert(Box::new(rewrite(*elem, old, new)) == elem);
            assert((if lifetime == Some(old) { Some(new) } else { lifetime }) == lifetime);
        },
        TypeModel::Path { path } => {
            lemma_unchanged_segments(path.segments, old, new);
            assert(rewrite_path(path, old, new) == path);
        },
        TypeModel::BareFn { prefix, inputs, output } => {
            lemma_unchanged_all(inputs, old, new);
            match output {
                Some(o) => {
                    lemma_unchanged(*o, old, new);
                    assert(rewrite(t, old, new) == TypeModel::BareFn {
                        prefix,
                        inputs: rewrite_all(inputs, old, new),
                        output: Some(Box::new(rewrite(*o, old, new))),
                    });
                },
                None => {},
            }
        },
        TypeModel::Tuple { elems } => lemma_unchanged_all(elems, old, new),
        TypeModel::Verbatim { .. } => {},
    }
}

proof fn lemma_unchanged_all(s: Seq<TypeModel>, old: Seq<char>, new: Seq<char>)
    requires
        old == new || !mentions_in_all(s, old),
    ensures
        rewrite_all(s, old, new) == s,
    decreases s,
{
    if s.len() > 0 {
        lemma_unchanged_all(s.drop_last(), old, new);
        lemma_unchanged(s.last(), old, new);
        assert(s.drop_last().push(s.last()) =~= s);
    }
}

proof fn lemma_unchanged_segments(s: Seq<SegmentModel>, old: Seq<char>, new: Seq<char>)
    requires
        old == new || !mentions_in_segments(s, old),
    ensures
        rewrite_segments(s, old, new) == s,
    decreases s,
{
    if s.len() > 0 {
        lemma_unchanged_segments(s.drop_last(), old, new);
        match s.last().arguments {
            Some(a) => lemma_unchanged_arguments(a, old, new),
            None => {},
        }
        assert(s.drop_last().push(s.last()) =~= s);
    }
}

proof fn lemma_unchanged_arguments(s: Seq<ArgumentModel>, old: Seq<char>, new: Seq<char>)
    requires
        old == new || !mentions_in_arguments(s, old),
    ensures
        rewrite_arguments(s, old, new) == s,
    decreases s,
{
    if s.len() > 0 {
        lemma_unchanged_arguments(s.drop_last(), old, new);
        assert(old == new || !mentions_in_argument(s.last(), old));
        match s.last() {
            ArgumentModel::Type { ty } => {
                lemma_unchanged(ty, old, new);
            },
            _ => {},
        }
        assert(rewrite_argument(s.last(), old, new) == s.last());
        assert(s.drop_last().push(s.last()) =~= s);
    }
}

proof fn lemma_removed(t: TypeModel, old: Seq<char>, new: Seq<char>)
    requires
        old != new,
    ensures
        !mentions(rewrite(t, old, new), old),
    decreases t,
{
    match t {
        TypeModel::Reference { lifetime, mutability, elem } => {
            lemma_removed(*elem, old, new);
            let r = rewrite(t, old, new);
            assert(r == TypeModel::Reference {
                lifetime: if lifetime == Some(old) { Some(new) } else { lifetime },
                mutability,
                elem: Box::new(rewrite(*elem, old, new)),
            });
        },
        TypeModel::Path { path } => {
            lemma_removed_segments(path.segments, old, new);
            assert(rewrite(t, old, new) == TypeModel::Path { path: rewrite_path(path, old, new) });
        },
        TypeModel::BareFn { prefix, inputs, output } => {
            lemma_removed_all(inputs, old, new);
            match output {
                Some(o) => {
                    lemma_removed(*o, old, new);
                    assert(rewrite(t, old, new) == TypeModel::BareFn {
                        prefix,
                        inputs: rewrite_all(inputs, old, new),
                        output: Some(Box::new(rewrite(*o, old, new))),
                    });
                },
                None => {},
            }
        },
        TypeModel::Tuple { elems } => lemma_removed_all(elems, old, new),
        TypeModel::Verbatim { .. } => {},
    }
}

proof fn lemma_removed_all(s: Seq<TypeModel>, old: Seq<char>, new: Seq<char>)
    requires
        old != new,
    ensures
        !mentions_in_all(rewrite_all(s, old, new), old),
    decreases s,
{
    if s.len() > 0 {
        lemma_removed_all(s.drop_last(), old, new);
        lemma_removed(s.last(), old, new);
        let r = rewrite_all(s.drop_last(), old, new);
        assert(r.push(rewrite(s.last(), old, new)).drop_last() =~= r);
    }
}

proof fn lemma_removed_segments(s: Seq<SegmentModel>, old: Seq<char>, new: Seq<char>)
    requires
        old != new,
    ensures
        !mentions_in_segments(rewrite_segments(s, old, new), old),
    decreases s,
{
    if s.len() > 0 {
        lemma_removed_segments(s.drop_last(), old, new);
        match s.last().arguments {
            Some(a) => lemma_removed_arguments(a, old, new),
            None => {},
        }
        let r = rewrite_segments(s.drop_last(), old, new);
        let x = rewrite_segments(s, old, new);
        assert(x.drop_last() =~= r);
    }
}

proof fn lemma_removed_arguments(s: Seq<ArgumentModel>, old: Seq<char>, new: Seq<char>)
    requires
        old != new,
    ensures
        !mentions_in_arguments(rewrite_arguments(s, old, new), old),
    decreases s,
{
    if s.len() > 0 {
        lemma_removed_arguments(s.drop_last(), old, new);
        match s.last() {
            ArgumentModel::Type { ty } => lemma_removed(ty, old, new),
            _ => {},
        }
        assert(!mentions_in_argument(rewrite_argument(s.last(), old, new), old));
        let r = rewrite_arguments(s.drop_last(), old, new);
        let x = rewrite_arguments(s, old, new);
        assert(x.drop_last() =~= r);
    }
}

/// Rewriting a lifetime into itself leaves every type unchanged.
pub proof fn lemma_rewrite_same_lifetime_is_identity(t: TypeModel, l: Seq<char>)
    ensures
        rewrite(t, l, l) == t,
{
    lemma_unchanged(t, l, l);
}

/// After rewriting `old` into another lifetime, `old` occurs nowhere that the rewriting looks
/// into, and a type where it does not occur is left as it is.
pub proof fn lemma_rewrite_replaces_every_occurrence(t: TypeModel, old: Seq<char>, new: Seq<char>)
    requires
        old != new,
    ensures
        !mentions(rewrite(t, old, new), old),
        !mentions(t, old) ==> rewrite(t, old, new) == t,
{
    lemma_removed(t, old, new);
    if !mentions(t, old) {
        lemma_unchanged(t, old, new);
    }
}

/// Rewriting twice gives what rewriting once gives.
pub proof fn lemma_rewrite_idempotent(t: TypeModel, old: Seq<char>, new: Seq<char>)
    ensures
        rewrite(rewrite(t, old, new), old, new) == rewrite(t, old, new),
{
    if old == new {
        lemma_unchanged(t, old, new);
    } else {
        lemma_removed(t, old, new);
        lemma_unchanged(rewrite(t, old, new), old, new);
    }
}

/// The source text of `t`.
pub open spec fn type_text(t: TypeModel) -> Seq<char>
    decreases t,
{
    match t {
        TypeModel::Reference { lifetime, mutability, elem } => "&"@ + match lifetime {
            Some(l) => l + " "@,
            None => Seq::empty(),
        } + if mutability {
            "mut "@
        } else {
            Seq::empty()
        } + type_text(*elem),
        TypeModel::Path { path } => path_text(path),
        TypeModel::BareFn { prefix, inputs, output } => prefix + "("@ + list_text(inputs) + ")"@
            + match output {
            Some(o) => " -> "@ + type_text(*o),
            None => Seq::empty(),
        },
        TypeModel::Tuple { elems } => "("@ + list_text(elems) + if elems.len() == 1 {
            ","@
        } else {
            Seq::empty()
        } + ")"@,
        TypeModel::Verbatim { text } => text,
    }
}

/// The source text of the types `s`, separated by `, `.
pub open spec fn list_text(s: Seq<TypeModel>) -> Seq<char>
    decreases s,
{
    if s.len() == 0 {
        Seq::empty()
    } else if s.len() == 1 {
        type_text(s.last())
    } else {
        list_text(s.drop_last()) + ", "@ + type_text(s.last())
    }
}

pub open spec fn path_text(p: PathModel) -> Seq<char>
    decreases p,
{
    if p.leading_colon {
        "::"@ + segments_text(p.segments)
    } else {
        segments_text(p.segments)
    }
}

/// The source text of the segments `s`, separated by `::`.
pub open spec fn segments_text(s: Seq<SegmentModel>) -> Seq<char>
    decreases s,
{
    if s.len() == 0 {
        Seq::empty()
    } else {
        let seg = s.last();
        let last = seg.ident + match seg.arguments {
            Some(a) => "<"@ + arguments_text(a) + ">"@,
            None => Seq::empty(),
        };
        if s.len() == 1 {
            last
        } else {
            segments_text(s.drop_last()) + "::"@ + last
        }
    }
}

pub open spec fn argument_text(a: ArgumentModel) -> Seq<char>
    decreases a,
{
    match a {
        ArgumentModel::Lifetime { name } => name,
        ArgumentModel::Type { ty } => type_text(ty),
        ArgumentModel::Verbatim { text } => text,
    }
}

/// The source text of the arguments `s`, separated by `, `.
pub open spec fn arguments_text(s: Seq<ArgumentModel>) -> Seq<char>
    decreases s,
{
    if s.len() == 0 {
        Seq::empty()
    } else if s.len() == 1 {
        argument_text(s.last())
    } else {
        arguments_text(s.drop_last()) + ", "@ + argument_text(s.last())
    }
}

proof fn lemma_types_view_len(s: Seq<TypeExpr>)
    ensures
        types_view(s).len() == s.len(),
    decreases s.len(),
{
    if s.len() > 0 {
        lemma_types_view_len(s.drop_last());
    }
}

fn write_type(t: &TypeExpr, out: &mut String)
    ensures
        final(out)@ == old(out)@ + type_text(t@),
    decreases t,
{
    let ghost start = out@;
    match t {
        TypeExpr::Reference { lifetime, mutability, elem } => {
            out.append("&");
            let ghost a = out@;
            match lifetime {
                Some(l) => {
                    out.append(l.as_str());
                    out.append(" ");
                },
                None => {},
            }
            let ghost b = out@;
            if *mutability {
                out.append("mut ");
            }
            let ghost c = out@;
            write_type(elem, out);
            assert(out@ =~= start + type_text(t@));
        },
        TypeExpr::Path { path } => write_path(path, out),
        TypeExpr::BareFn { prefix, inputs, output } => {
            out.append(prefix.as_str());
            out.append("(");
            write_types(inputs, out);
            out.append(")");
            match output {
                Some(o) => {
                    out.append(" -> ");
                    write_type(o, out);
                },
                None => {},
            }
            assert(out@ =~= start + type_text(t@));
        },
        TypeExpr::Tuple { elems } => {
            out.append("(");
            write_types(elems, out);
            if elems.len() == 1 {
                out.append(",");
            }
            out.append(")");
            proof {
                lemma_types_view_len(elems@);
            }
            assert(out@ =~= start + type_text(t@));
        },
        TypeExpr::Verbatim { text } => out.append(text.as_str()),
    }
}

fn write_types(s: &Vec<TypeExpr>, out: &mut String)
    ensures
        final(out)@ == old(out)@ + list_text(types_view(s@)),
    decreases s,
{
    let ghost start = out@;
    let mut i: usize = 0;
    while i < s.len()
        invariant
            i <= s.len(),
            out@ == start + list_text(types_view(s@.take(i as int))),
        decreases s.len() - i,
    {
        proof {
            assert(decreases_to!(s => s[i as int]));
            assert(s@.take(i + 1).drop_last() =~= s@.take(i as int));
            lemma_types_view_len(s@.take(i as int));
        }
        let ghost before = out@;
        if i > 0 {
            out.append(", ");
        }
        write_type(&s[i], out);
        proof {
            let v = types_view(s@.take(i as int));
            let w = types_view(s@.take(i + 1));
            assert(w == v.push(type_view(s@[i as int])));
            assert(w.drop_last() =~= v);
            assert(w.last() == type_view(s@[i as int]));
            assert(out@ =~= start + list_text(w));
        }
        i = i + 1;
    }
    assert(s@.take(i as int) =~= s@);
}

fn write_path(p: &PathExpr, out: &mut String)
    ensures
        final(out)@ == old(out)@ + path_text(p@),
    decreases p,
{
    let ghost start = out@;
    if p.leading_colon {
        out.append("::");
    }
    write_segments(&p.segments, out);
    assert(out@ =~= start + path_text(p@));
}

fn write_segments(s: &Vec<PathSegment>, out: &mut String)
    ensures
        final(out)@ == old(out)@ + segments_text(segments_view(s@)),
    decreases s,
{
    let ghost start = out@;
    let mut i: usize = 0;
    while i < s.len()
        invariant
            i <= s.len(),
            out@ == start + segments_text(segments_view(s@.take(i as int))),
        decreases s.len() - i,
    {
        proof {
            assert(decreases_to!(s => s[i as int]));
            assert(s@.take(i + 1).drop_last() =~= s@.take(i as int));
            lemma_segments_view_len(s@.take(i as int));
        }
        let seg = &s[i];
        if i > 0 {
            out.append("::");
        }
        let ghost mid = out@;
        out.append(seg.ident.as_str());
        match &seg.arguments {
            Some(a) => {
                proof {
                    assert(decreases_to!(s[i as int] => s[i as int].arguments));
                }
                out.append("<");
                write_arguments(a, out);
                out.append(">");
            },
            None => {},
        }
        proof {
            let v = segments_view(s@.take(i as int));
            let w = segments_view(s@.take(i + 1));
            assert(w.drop_last() =~= v);
            assert(s@.take(i + 1).last() == s@[i as int]);
            assert(out@ =~= start + segments_text(w));
        }
        i = i + 1;
    }
    assert(s@.take(i as int) =~= s@);
}

fn write_arguments(s: &Vec<GenericArgument>, out: &mut String)
    ensures
        final(out)@ == old(out)@ + arguments_text(arguments_view(s@)),
    decreases s,
{
    let ghost start = out@;
    let mut i: usize = 0;
    while i < s.len()
        invariant
            i <= s.len(),
            out@ == start + arguments_text(arguments_view(s@.take(i as int))),
        decreases s.len() - i,
    {
        proof {
            assert(decreases_to!(s => s[i as int]));
            assert(s@.take(i + 1).drop_last() =~= s@.take(i as int));
            lemma_arguments_view_len(s@.take(i as int));
        }
        if i > 0 {
            out.append(", ");
        }
        let ghost mid = out@;
        match &s[i] {
            GenericArgument::Lifetime { name } => out.append(name.as_str()),
            GenericArgument::Type { ty } => write_type(ty, out),
            GenericArgument::Verbatim { text } => out.append(text.as_str()),
        }
        assert(out@ == mid + argument_text(argument_view(s@[i as int])));
        proof {
            let v = arguments_view(s@.take(i as int));
            let w = arguments_view(s@.take(i + 1));
            assert(w == v.push(argument_view(s@[i as int])));
            assert(w.drop_last() =~= v);
            assert(out@ =~= start + arguments_text(w));
        }
        i = i + 1;
    }
    assert(s@.take(i as int) =~= s@);
}

impl TypeExpr {
    /// A copy of this type with the lifetime `old_lifetime` replaced by `new_lifetime`
    /// throughout.
    pub fn with_lifetime_replaced(&self, old_lifetime: &str, new_lifetime: &str) -> (r: TypeExpr)
        ensures
            r@ == rewrite(self@, old_lifetime@, new_lifetime@),
    {
        let old = String::from_str(old_lifetime);
        let new = String::from_str(new_lifetime);
        rewrite_type(self, &old, &new)
    }

    /// A copy of this type (a rewrite of one lifetime into itself, which changes nothing).
    pub fn duplicate(&self) -> (r: TypeExpr)
        ensures
            r@ == self@,
    {
        proof {
            lemma_rewrite_same_lifetime_is_identity(self@, "'static"@);
        }
        self.with_lifetime_replaced("'static", "'static")
    }

    /// The source text of this type.
    pub fn to_source(&self) -> (r: String)
        ensures
            r@ == type_text(self@),
    {
        let mut r = String::new();
        write_type(self, &mut r);
        assert(r@ =~= type_text(self@));
        r
    }
}

} // verus!
