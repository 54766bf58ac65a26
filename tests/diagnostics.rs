use wslplugins::diagnostics::{accumulate2, accumulate3, Anchor, CombinedDiagnostic};

type Result<T> = std::result::Result<T, CombinedDiagnostic>;

fn error(message: &str) -> CombinedDiagnostic {
    CombinedDiagnostic::new(Anchor::Attribute, message)
}

#[test]
fn test_all_ok_results() {
    let result1: Result<i32> = Ok(10);
    let result2: Result<String> = Ok("Success".to_string());
    let result3: Result<f64> = Ok(3.14);

    let combined_result = accumulate3(result1, result2, result3);
    match combined_result {
        Ok((val1, val2, val3)) => {
            assert_eq!(val1, 10);
            assert_eq!(val2, "Success".to_string());
            assert_eq!(val3, 3.14);
        }
        Err(_) => panic!("Expected all Ok results"),
    }
}

#[test]
fn test_single_error() {
    let result1: Result<i32> = Ok(10);
    let result2: Result<String> = Err(error("Error in result2"));
    let result3: Result<f64> = Ok(3.14);

    let combined_result = accumulate3(result1, result2, result3);
    match combined_result {
        Ok(_) => panic!("Expected an error, but got Ok"),
        Err(e) => assert_eq!(e.to_string(), "Error in result2"),
    }
}

#[test]
fn test_multiple_errors() {
    let result1: Result<i32> = Err(error("Error in result1"));
    let result2: Result<String> = Err(error("Error in result2"));
    let result3: Result<f64> = Ok(3.14);

    let combined_result = accumulate3(result1, result2, result3);
    match combined_result {
        Ok(_) => panic!("Expected an error, but got Ok"),
        Err(e) => {
            let token_string = e.to_string();
            assert!(token_string.contains("Error in result1"));
            assert!(token_string.contains("Error in result2"));
        }
    }
}

#[test]
fn test_ok_and_error() {
    let result1: Result<i32> = Ok(10);
    let result2: Result<String> = Err(error("Error in result2"));

    let combined_result = accumulate2(result1, result2);
    match combined_result {
        Ok(_) => panic!("Expected an error, but got Ok"),
        Err(e) => assert_eq!(e.to_string(), "Error in result2"),
    }
}

#[test]
fn two_failures_of_three_keep_both_messages_in_order() {
    let result1: Result<u8> = Err(CombinedDiagnostic::new(Anchor::ImplKeyword, "first"));
    let result2: Result<u8> = Ok(1);
    let result3: Result<u8> = Err(CombinedDiagnostic::new(
        Anchor::AttributeToken { index: 2 },
        "third",
    ));
    let e = accumulate3(result1, result2, result3).unwrap_err();
    assert_eq!(e.errors().len(), 2);
    assert_eq!(e.errors()[0].anchor, Anchor::ImplKeyword);
    assert_eq!(e.errors()[0].message, "first");
    assert_eq!(e.errors()[1].anchor, Anchor::AttributeToken { index: 2 });
    assert_eq!(e.errors()[1].message, "third");
    assert_eq!(e.to_string(), "first\nthird");
}

#[test]
fn three_successes_give_the_exact_triple() {
    let r = accumulate3::<u8, &str, Vec<u8>>(Ok(7), Ok("x"), Ok(vec![1, 2]));
    assert_eq!(r, Ok((7, "x", vec![1, 2])));
}

#[test]
fn concat_keeps_order() {
    let b = error("b").concat(error("c"));
    let a = error("a").concat(b);
    assert_eq!(a.errors().len(), 3);
    assert_eq!(a.to_string(), "a\nb\nc");
}
