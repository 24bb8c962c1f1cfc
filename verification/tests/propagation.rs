use resp_result::convert::from_request::{FromRequestFamily, MapReject, ToInner};
use resp_result::expect_ext::ExpectExt;
use resp_result::{FromResidual, Nil, RespResult};
use std::convert::Infallible;
use std::ops::ControlFlow;

#[derive(Debug, PartialEq)]
struct A;

#[derive(Debug, PartialEq)]
struct B;

#[derive(Debug, PartialEq)]
enum MockA {
    A(A),
    B(B),
}

impl From<A> for MockA {
    fn from(a: A) -> Self {
        MockA::A(a)
    }
}

impl From<B> for MockA {
    fn from(v: B) -> Self {
        MockA::B(v)
    }
}

fn plain(r: Result<u32, B>) -> ControlFlow<Result<Infallible, B>, u32> {
    match r {
        Ok(v) => ControlFlow::Continue(v),
        Err(e) => ControlFlow::Break(Err(e)),
    }
}

fn chain(first: RespResult<u32, A>, second: Result<u32, B>) -> RespResult<u32, MockA> {
    let a = match first.branch() {
        ControlFlow::Continue(v) => v,
        ControlFlow::Break(r) => return FromResidual::from_residual(r),
    };
    let b = match plain(second) {
        ControlFlow::Continue(v) => v,
        ControlFlow::Break(r) => return FromResidual::from_residual(r),
    };
    RespResult::from_output(a + b)
}

fn chain_plain(first: RespResult<u32, A>) -> Result<u32, MockA> {
    let a = match first.branch() {
        ControlFlow::Continue(v) => v,
        ControlFlow::Break(r) => return FromResidual::from_residual(r),
    };
    Ok(a + 1)
}

#[test]
fn a_success_goes_on_with_its_payload() {
    assert!(matches!(RespResult::<u32, A>::ok(11).branch(), ControlFlow::Continue(11)));
    assert!(matches!(chain(RespResult::ok(11), Ok(4)), RespResult::Success(15)));
    assert_eq!(chain_plain(RespResult::ok(1)), Ok(2));
}

#[test]
fn a_failure_breaks_with_its_error() {
    match RespResult::<u32, A>::err(A).branch() {
        ControlFlow::Break(RespResult::Error(e)) => assert_eq!(e, A),
        _ => panic!("a failure went on"),
    }
}

#[test]
fn a_failed_outcome_ends_the_function_with_its_error_converted() {
    assert!(matches!(chain(RespResult::err(A), Ok(4)), RespResult::Error(MockA::A(A))));
    assert!(matches!(chain(RespResult::err(A), Err(B)), RespResult::Error(MockA::A(A))));
}

#[test]
fn a_failed_plain_result_ends_the_function_with_its_error_converted() {
    assert!(matches!(chain(RespResult::ok(1), Err(B)), RespResult::Error(MockA::B(B))));
}

#[test]
fn a_failed_outcome_ends_a_function_that_returns_a_plain_result() {
    assert_eq!(chain_plain(RespResult::err(A)), Err(MockA::A(A)));
}

#[test]
fn outcomes_and_plain_results_convert_into_each_other() {
    assert!(matches!(RespResult::<u32, A>::from(Ok(3)), RespResult::Success(3)));
    assert!(matches!(RespResult::<u32, A>::from(Err(A)), RespResult::Error(A)));
    assert_eq!(RespResult::<u32, A>::ok(3).into_result(), Ok(3));
    assert_eq!(RespResult::<u32, A>::err(A).into_result(), Err(A));
    assert!(matches!(RespResult::<u32, A>::from_output(9), RespResult::Success(9)));
}

#[test]
fn flags_wrap_the_payload_of_a_success_only() {
    let flags = resp_result::ExtraFlags::none().with(resp_result::ExtraFlag::EmptyBody);
    match RespResult::<u32, A>::ok(5).with_flags(flags) {
        RespResult::Success(wrapped) => {
            assert_eq!(wrapped.inner, 5);
            assert_eq!(wrapped.flags.flags.len(), 1);
        }
        RespResult::Error(_) => panic!("a success became a failure"),
    }
    let flags = resp_result::ExtraFlags::none().with(resp_result::ExtraFlag::EmptyBody);
    assert!(matches!(RespResult::<u32, A>::err(A).with_flags(flags), RespResult::Error(A)));
}

#[test]
fn expected_values_are_taken_out() {
    assert_eq!(Result::<u32, B>::Ok(4).with_expect("a number"), 4);
    assert_eq!(Result::<u32, B>::Err(B).with_expect_err("a failure"), B);
    assert_eq!(Some(4u8).with_expect("a number"), 4);
    assert_eq!(None::<u8>.with_expect_err("nothing"), ());
}

struct Wrapped(u32);

impl ToInner for Wrapped {
    type Inner = u32;

    fn inner_view(self) -> u32 {
        unreachable!()
    }

    fn to_inner(self) -> u32 {
        self.0
    }
}

struct Family;

impl FromRequestFamily<MockA> for Family {
    type Payload = Wrapped;
}

#[test]
fn what_an_extractor_found_is_unwrapped() {
    match MapReject::<Family, MockA>::from_extraction::<B>(Ok(Wrapped(7))) {
        Ok(found) => assert_eq!(found.0, 7),
        Err(_) => panic!("a found value was rejected"),
    }
}

#[test]
fn a_rejection_becomes_a_failed_outcome() {
    match MapReject::<Family, MockA>::from_extraction(Err(B)) {
        Err(RespResult::Error(e)) => assert_eq!(e, MockA::B(B)),
        _ => panic!("a rejection was not handed on"),
    }
    let rejected: Result<MapReject<Family, MockA>, RespResult<Nil, MockA>> =
        MapReject::from_extraction(Err(A));
    assert!(matches!(rejected, Err(RespResult::Error(MockA::A(A)))));
}
