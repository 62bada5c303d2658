use gateway_client::acl::{ensured, AclEngine, ForbiddenACL, SystemACL, UnauthorizedError, Verdict};

#[derive(Debug, PartialEq)]
enum Failure {
    Unauthorized,
    Storage(u8),
}

impl From<UnauthorizedError> for Failure {
    fn from(_: UnauthorizedError) -> Failure {
        Failure::Unauthorized
    }
}

#[test]
fn system_acl_allows_everything() {
    let verdict: Verdict<u32, Failure> = SystemACL.allows(5);
    assert_eq!(verdict, Ok((true, 5)));
    let result: Result<u32, (Failure, u32)> = SystemACL.ensure_access(5);
    assert_eq!(result, Ok(5));
}

#[test]
fn forbidden_acl_denies_everything() {
    let verdict: Verdict<u32, Failure> = ForbiddenACL.allows(5);
    assert_eq!(verdict, Ok((false, 5)));
    let result: Result<u32, (Failure, u32)> = ForbiddenACL.ensure_access(5);
    assert_eq!(result, Err((Failure::Unauthorized, 5)));
}

#[test]
fn function_is_an_engine() {
    let even_only = |ctx: u32| -> Verdict<u32, Failure> {
        if ctx == 0 {
            Err((Failure::Storage(1), ctx))
        } else {
            Ok((ctx % 2 == 0, ctx))
        }
    };
    assert_eq!(even_only.allows(4), Ok((true, 4)));
    assert_eq!(even_only.ensure_access(4), Ok(4));
    assert_eq!(even_only.ensure_access(3), Err((Failure::Unauthorized, 3)));
    assert_eq!(even_only.ensure_access(0), Err((Failure::Storage(1), 0)));
}

#[test]
fn verdict_decides_the_result() {
    let allowed: Verdict<&str, Failure> = Ok((true, "ctx"));
    assert_eq!(ensured(allowed), Ok("ctx"));
    let denied: Verdict<&str, Failure> = Ok((false, "ctx"));
    assert_eq!(ensured(denied), Err((Failure::Unauthorized, "ctx")));
    let failed: Verdict<&str, Failure> = Err((Failure::Storage(9), "ctx"));
    assert_eq!(ensured(failed), Err((Failure::Storage(9), "ctx")));
}

#[test]
fn unauthorized_describes_itself() {
    assert_eq!(UnauthorizedError.to_string(), "Unauthorized");
}
