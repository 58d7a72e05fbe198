use sos21_use_case::error::{ensure, refuse, InternalError};
use sos21_use_case::flow::{
    all_entities, check_all_visible, collect_results, decide_keyed, expect_visible, require_visible,
    take_expected_visible, take_visible, Found, Keyed,
};
use sos21_use_case::UseCaseError;

#[derive(Debug, PartialEq)]
enum Small {
    A(u8),
}

#[derive(Debug, PartialEq)]
enum Big {
    B(u16),
}

#[test]
fn test_map_use_case_maps_use_case_errors() {
    let err: UseCaseError<Small> = UseCaseError::UseCase(Small::A(3));
    let mapped = err.map_use_case(|Small::A(x)| Big::B(x as u16 * 100));
    assert!(matches!(mapped, UseCaseError::UseCase(Big::B(300))));
}

#[test]
fn test_map_use_case_keeps_internal_errors() {
    let err: UseCaseError<Small> = UseCaseError::Internal(InternalError { message: "boom".to_string() });
    let mapped = err.map_use_case(|Small::A(x)| Big::B(x as u16));
    match mapped {
        UseCaseError::Internal(e) => assert_eq!(e.message, "boom"),
        UseCaseError::UseCase(_) => panic!("an internal error became a use-case error"),
    }
}

#[test]
fn test_map_use_case_identity() {
    let err: UseCaseError<Small> = UseCaseError::UseCase(Small::A(9));
    assert!(matches!(err.map_use_case(|e| e), UseCaseError::UseCase(Small::A(9))));
}

#[test]
fn test_map_use_case_composition() {
    let f = |Small::A(x)| Big::B(x as u16 + 1);
    let g = |Big::B(y)| y * 2;
    let twice = UseCaseError::UseCase(Small::A(4)).map_use_case(f).map_use_case(g);
    let once = UseCaseError::UseCase(Small::A(4)).map_use_case(|e| g(f(e)));
    assert!(matches!(twice, UseCaseError::UseCase(10)));
    assert!(matches!(once, UseCaseError::UseCase(10)));
}

#[test]
fn test_refuse_and_ensure() {
    assert!(matches!(refuse::<u8, Small>(Small::A(1)), Err(UseCaseError::UseCase(Small::A(1)))));
    assert!(matches!(ensure::<Small>(true, "fine"), Ok(())));
    match ensure::<Small>(false, "Condition failed: x") {
        Err(UseCaseError::Internal(e)) => assert_eq!(e.message, "Condition failed: x"),
        _ => panic!("a failed condition is an internal error"),
    }
}

#[test]
fn test_hidden_entity_is_answered_as_missing() {
    let hidden = take_visible(Some(Found { entity: 1u8, visible: false }), "not found");
    let missing = take_visible::<u8, &str>(None, "not found");
    assert!(matches!(hidden, Err(UseCaseError::UseCase("not found"))));
    assert!(matches!(missing, Err(UseCaseError::UseCase("not found"))));
    assert!(matches!(take_visible(Some(Found { entity: 1u8, visible: true }), "not found"), Ok(1)));
}

#[test]
fn test_expected_visible_entities() {
    assert!(matches!(take_expected_visible(Some(Found { entity: 1u8, visible: false }), ()), Err(UseCaseError::Internal(_))));
    assert!(matches!(take_expected_visible::<u8, ()>(None, ()), Err(UseCaseError::UseCase(()))));
    assert!(matches!(expect_visible::<u8, ()>(Found { entity: 1, visible: true }), Ok(1)));
    assert!(matches!(require_visible::<u8, ()>(None), Err(UseCaseError::Internal(_))));
}

#[test]
fn test_all_entities() {
    let list = vec![Found { entity: 1u8, visible: true }, Found { entity: 2u8, visible: true }];
    assert!(check_all_visible(&list));
    assert_eq!(all_entities::<u8, ()>(list).ok().unwrap(), vec![1, 2]);
    let list = vec![Found { entity: 1u8, visible: false }];
    assert!(!check_all_visible(&list));
    assert!(matches!(all_entities::<u8, ()>(list), Err(UseCaseError::Internal(_))));
}

#[test]
fn test_collect_results_first_error_decides() {
    assert_eq!(collect_results::<u8, &str>(vec![Ok(1), Ok(2)]), Ok(vec![1, 2]));
    assert_eq!(collect_results::<u8, &str>(vec![Ok(1), Err("a"), Err("b")]), Err("a"));
    assert_eq!(collect_results::<u8, &str>(vec![]), Ok(vec![]));
}

#[test]
fn test_decide_keyed_reports_key_of_first_refusal() {
    let parts = vec![
        Keyed { key: 'x', result: Ok::<u8, UseCaseError<&str>>(1) },
        Keyed { key: 'y', result: Err(UseCaseError::UseCase("bad")) },
        Keyed { key: 'z', result: Err(UseCaseError::UseCase("worse")) },
    ];
    assert!(matches!(decide_keyed(parts), Err(UseCaseError::UseCase(('y', "bad")))));
    let parts = vec![
        Keyed { key: 'x', result: Ok::<u8, UseCaseError<&str>>(1) },
        Keyed { key: 'y', result: Ok(2) },
    ];
    assert_eq!(decide_keyed(parts).ok().unwrap(), vec![1, 2]);
}
