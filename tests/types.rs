use wslplugins::types::{
    get_path_lifetime, replace_lifetime_in_type, GenericArgument, PathExpr, PathSegment, TypeExpr,
};

fn named(text: &str) -> TypeExpr {
    TypeExpr::Path {
        path: simple_path(text, None),
    }
}

fn simple_path(ident: &str, arguments: Option<Vec<GenericArgument>>) -> PathExpr {
    PathExpr {
        leading_colon: false,
        segments: vec![PathSegment {
            ident: ident.to_string(),
            arguments,
        }],
    }
}

fn generic(ident: &str, arguments: Vec<GenericArgument>) -> TypeExpr {
    TypeExpr::Path {
        path: simple_path(ident, Some(arguments)),
    }
}

fn lifetime(name: &str) -> GenericArgument {
    GenericArgument::Lifetime {
        name: name.to_string(),
    }
}

fn ty(t: TypeExpr) -> GenericArgument {
    GenericArgument::Type { ty: t }
}

fn reference(lt: Option<&str>, elem: TypeExpr) -> TypeExpr {
    TypeExpr::Reference {
        lifetime: lt.map(|l| l.to_string()),
        mutability: false,
        elem: Box::new(elem),
    }
}

#[test]
fn test_replace_lifetime_in_reference_type() {
    let mut ty = reference(Some("'a"), named("i32"));
    replace_lifetime_in_type(&mut ty, "'a", "'b");
    let expected_ty = reference(Some("'b"), named("i32"));
    assert_eq!(ty, expected_ty);
}

#[test]
fn test_replace_lifetime_in_path_type() {
    let mut ty = generic("MyStruct", vec![lifetime("'a")]);
    replace_lifetime_in_type(&mut ty, "'a", "'b");
    let expected_ty = generic("MyStruct", vec![lifetime("'b")]);
    assert_eq!(ty.to_source(), expected_ty.to_source());
    assert_eq!(ty.to_source(), "MyStruct<'b>");
}

#[test]
fn test_replace_lifetime_in_tuple_type() {
    let mut ty = TypeExpr::Tuple {
        elems: vec![
            reference(Some("'a"), named("i32")),
            reference(Some("'a"), named("str")),
        ],
    };
    replace_lifetime_in_type(&mut ty, "'a", "'b");
    let expected_ty = TypeExpr::Tuple {
        elems: vec![
            reference(Some("'b"), named("i32")),
            reference(Some("'b"), named("str")),
        ],
    };
    assert_eq!(ty, expected_ty);
}

#[test]
fn test_get_path_lifetime() {
    let path = simple_path("MyStruct", Some(vec![lifetime("'a")]));
    let lifetime = get_path_lifetime(&path);
    assert_eq!(lifetime, Some("'a".to_string()));
}

#[test]
fn test_get_path_lifetime_no_lifetime() {
    let path = simple_path("MyStruct", None);
    let lifetime = get_path_lifetime(&path);
    assert_eq!(lifetime, None);
}

fn nested(lt: &str) -> TypeExpr {
    // Outer<'x, Inner<'x, &'x u8>, fn(&'x str) -> &'x str>
    generic(
        "Outer",
        vec![
            lifetime(lt),
            ty(generic(
                "Inner",
                vec![lifetime(lt), ty(reference(Some(lt), named("u8")))],
            )),
            ty(TypeExpr::BareFn {
                prefix: "fn".to_string(),
                inputs: vec![reference(Some(lt), named("str"))],
                output: Some(Box::new(reference(Some(lt), named("str")))),
            }),
        ],
    )
}

#[test]
fn nested_generic_types_are_rewritten_throughout() {
    let mut t = nested("'a");
    replace_lifetime_in_type(&mut t, "'a", "'static");
    assert_eq!(t, nested("'static"));
    assert_eq!(
        t.to_source(),
        "Outer<'static, Inner<'static, &'static u8>, fn(&'static str) -> &'static str>"
    );
}

#[test]
fn rewriting_a_lifetime_into_itself_changes_nothing() {
    let mut t = nested("'a");
    replace_lifetime_in_type(&mut t, "'a", "'a");
    assert_eq!(t, nested("'a"));
}

#[test]
fn rewriting_twice_equals_rewriting_once() {
    let mut once = nested("'a");
    replace_lifetime_in_type(&mut once, "'a", "'b");
    let mut twice = nested("'a");
    replace_lifetime_in_type(&mut twice, "'a", "'b");
    replace_lifetime_in_type(&mut twice, "'a", "'b");
    assert_eq!(once, twice);
}

#[test]
fn other_lifetimes_and_verbatim_shapes_are_kept() {
    let mut t = TypeExpr::Tuple {
        elems: vec![
            reference(Some("'c"), named("u8")),
            TypeExpr::Verbatim {
                text: "[&'a u8; 4]".to_string(),
            },
            reference(None, named("u8")),
        ],
    };
    replace_lifetime_in_type(&mut t, "'a", "'b");
    assert_eq!(t.to_source(), "(&'c u8, [&'a u8; 4], &u8)");
}

#[test]
fn first_lifetime_is_found_in_later_segments() {
    let path = PathExpr {
        leading_colon: true,
        segments: vec![
            PathSegment {
                ident: "plugins".to_string(),
                arguments: None,
            },
            PathSegment {
                ident: "Api".to_string(),
                arguments: Some(vec![ty(named("T")), lifetime("'x"), lifetime("'y")]),
            },
        ],
    };
    assert_eq!(get_path_lifetime(&path), Some("'x".to_string()));
}

#[test]
fn type_source_text() {
    let one = TypeExpr::Tuple {
        elems: vec![named("u8")],
    };
    assert_eq!(one.to_source(), "(u8,)");
    let unit = TypeExpr::Tuple { elems: vec![] };
    assert_eq!(unit.to_source(), "()");
    let m = TypeExpr::Reference {
        lifetime: Some("'a".to_string()),
        mutability: true,
        elem: Box::new(named("T")),
    };
    assert_eq!(m.to_source(), "&'a mut T");
}
