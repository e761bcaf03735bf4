//! Early-return unwrapping as the keeper's tasks use it: take the value out
//! of a Result or Option, or print a message and stop the task's iteration.

#[test]
fn test_unwrap_ok_or() {
    let something_ok: Result<&str, &str> = Result::Ok("Ok");
    let something_err: Result<&str, &str> = Result::Err("Some error message");
    let ok = match something_ok {
        Ok(v) => v,
        Err(_e) => {
            println!("{:?}", "Error when unwrap Result");
            return;
        }
    };
    assert_eq!(ok, "Ok");
    match something_err {
        Ok(v) => v,
        Err(_e) => {
            println!("{:?}", "This error message will be printed! And, the code below this unwrap will not be executed!");
            return;
        }
    };
    panic!("This shall not be reached!");
}

#[test]
fn test_unwrap_some_or() {
    let something_ok: Option<&str> = Option::Some("Ok");
    let something_none: Option<&str> = Option::None;
    let ok = match something_ok {
        Some(v) => v,
        None => {
            println!("{:?}", "Error when unwrap Option");
            return;
        }
    };
    assert_eq!(ok, "Ok");
    match something_none {
        Some(v) => v,
        None => {
            println!("{:?}", "This error message will be printed! And, the code below this unwrap will not be executed!");
            return;
        }
    };
    panic!("This shall not be reached!");
}
