use peel::Peel;
use peel::Peeled;

#[derive(Debug, Clone, PartialEq)]
struct Timeout(u64);

#[derive(Debug, Clone, PartialEq)]
struct NotFound(String);

#[test]
fn test_peeled_peel_residual() {
    let p: Peeled<Timeout, NotFound> = Peeled::Residual(NotFound("key".to_string()));
    assert_eq!(p.peel(), Ok(NotFound("key".to_string())));
}

#[test]
fn test_peeled_peel_peeled() {
    let p: Peeled<Timeout, NotFound> = Peeled::Peeled(Timeout(500));
    assert_eq!(p.peel(), Err(Timeout(500)));
}

#[test]
fn test_peeled_clone_is_structural() {
    let p: Peeled<Timeout, NotFound> = Peeled::Peeled(Timeout(42));
    assert_eq!(p.clone(), p);

    let r: Peeled<Timeout, NotFound> = Peeled::Residual(NotFound("key".to_string()));
    assert_eq!(r.clone(), r);
}

#[test]
fn test_peeled_lifts_through_result() {
    let res: Result<i32, Peeled<u64, String>> = Err(Peeled::Peeled(100));
    assert_eq!(res.peel(), Err(100));

    let res: Result<i32, Peeled<u64, String>> = Err(Peeled::Residual("rest".to_string()));
    assert_eq!(res.peel(), Ok(Err("rest".to_string())));

    let res: Result<i32, Peeled<u64, String>> = Ok(9);
    assert_eq!(res.peel(), Ok(Ok(9)));
}
