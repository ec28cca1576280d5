use assert_cmd::code_pred::CodePredicate;
use assert_cmd::code_pred::EqCodePredicate;
use assert_cmd::code_pred::InCodePredicate;
use assert_cmd::code_pred::IntoCodePredicate;
use assert_cmd::output_pred::BytesContentOutputPredicate;
use assert_cmd::output_pred::IntoOutputPredicate;
use assert_cmd::output_pred::OutputPredicate;
use assert_cmd::output_pred::SimilarTextPredicate;
use assert_cmd::output_pred::StrOutputPredicate;
use assert_cmd::output_pred::TextPredicate;

// Since IntoCodePredicate exists solely for conversion, test it under that
// scenario to ensure it works as expected.
fn convert_code<I, P>(pred: I) -> P
where
    I: IntoCodePredicate<P>,
    P: CodePredicate,
{
    pred.into_code()
}

#[test]
fn into_code_from_pred() {
    let pred = convert_code(EqCodePredicate::new(10));
    assert!(pred.eval(&10));
}

#[test]
fn into_code_from_i32() {
    let pred = convert_code(10);
    assert!(pred.eval(&10));
}

#[test]
fn into_code_from_vec() {
    let pred = convert_code(vec![3, 10]);
    assert!(pred.eval(&10));
}

#[test]
fn into_code_from_array() {
    let pred = convert_code(&[3, 10] as &[i32]);
    assert!(pred.eval(&10));
}

// Since IntoOutputPredicate exists solely for conversion, test it under that
// scenario to ensure it works as expected.
fn convert_output<I, P>(pred: I) -> P
where
    I: IntoOutputPredicate<P>,
    P: OutputPredicate,
{
    pred.into_output()
}

#[test]
fn into_output_from_pred() {
    let pred = convert_output(BytesContentOutputPredicate::new(b"Hello".to_vec()));
    assert!(pred.eval(b"Hello" as &[u8]));
}

#[test]
fn into_output_from_bytes() {
    let pred = convert_output(b"Hello" as &[u8]);
    assert!(pred.eval(b"Hello" as &[u8]));
}

#[test]
fn into_output_from_str() {
    let pred = convert_output("Hello");
    assert!(pred.eval(b"Hello" as &[u8]));
}

#[test]
fn eq_code_accepts_exactly_its_code() {
    let pred = convert_code(42);
    assert!(pred.eval(&42));
    assert!(!pred.eval(&41));
    assert!(!pred.eval(&-42));
    assert!(!pred.eval(&0));
}

#[test]
fn in_code_accepts_exactly_its_members() {
    let pred = convert_code(vec![2, 42]);
    assert!(pred.eval(&2));
    assert!(pred.eval(&42));
    assert!(!pred.eval(&7));
}

#[test]
fn in_code_empty_collection_accepts_nothing() {
    let pred = convert_code(Vec::new());
    assert!(!pred.eval(&0));
    assert!(!pred.eval(&1));
}

#[test]
fn in_code_with_repeated_members() {
    let pred = InCodePredicate::new(vec![5, 5]);
    assert!(pred.eval(&5));
    assert!(!pred.eval(&6));
}

#[test]
fn bytes_require_exact_equality_without_trimming() {
    let pred = convert_output(b"hello\n" as &[u8]);
    assert!(pred.eval(b"hello\n" as &[u8]));
    assert!(!pred.eval(b"hello" as &[u8]));
    assert!(!pred.eval(b"hello\n\n" as &[u8]));
    assert!(!pred.eval(b"" as &[u8]));
}

#[test]
fn empty_bytes_accept_only_empty() {
    let pred = convert_output(b"" as &[u8]);
    assert!(pred.eval(b"" as &[u8]));
    assert!(!pred.eval(b"x" as &[u8]));
}

#[test]
fn str_decodes_then_compares() {
    let pred = convert_output("hello\n");
    assert!(pred.eval(b"hello\n" as &[u8]));
    assert!(!pred.eval(b"hello" as &[u8]));
    assert!(!pred.eval(b"world\n" as &[u8]));
}

#[test]
fn str_rejects_invalid_utf8() {
    let pred = convert_output("hello");
    assert!(!pred.eval(b"\xffhello" as &[u8]));
    assert!(!pred.eval(&[0xc3u8, 0x28u8] as &[u8]));
}

#[test]
fn owned_string_coerces_like_borrowed_str() {
    let pred = convert_output(String::from("hi"));
    assert!(pred.eval(b"hi" as &[u8]));
    assert!(!pred.eval(b"ho" as &[u8]));
}

#[test]
fn text_predicate_lifts_over_decoding() {
    let pred: StrOutputPredicate<SimilarTextPredicate> =
        convert_output(SimilarTextPredicate::new(String::from("ok")));
    assert!(pred.eval(b"ok" as &[u8]));
    assert!(!pred.eval(b"no" as &[u8]));
    assert!(!pred.eval(b"\xff" as &[u8]));
}

#[test]
fn text_predicate_handles_non_ascii_text() {
    let inner = SimilarTextPredicate::new(String::from("caf\u{e9}"));
    let pred = StrOutputPredicate::new(inner);
    assert!(pred.eval("caf\u{e9}".as_bytes()));
    assert!(!pred.eval(b"cafe" as &[u8]));
}

#[test]
fn find_case_agrees_with_eval() {
    let pred = EqCodePredicate::new(3);
    assert!(pred.find_case(&3).is_none());
    assert!(pred.find_case(&4).is_some());
    let text = SimilarTextPredicate::new(String::from("a"));
    assert!(text.find_case("a").is_none());
    assert!(text.find_case("b").is_some());
}

#[test]
fn extreme_codes_are_rendered_in_decimal() {
    let pred = EqCodePredicate::new(i32::MIN);
    let tree = pred.find_case(&i32::MAX).unwrap();
    assert_eq!(tree.render(), "code == -2147483648\n  actual: 2147483647\n");
}

#[test]
fn find_case_renders_the_mismatch() {
    let pred = EqCodePredicate::new(7);
    let tree = pred.find_case(&42).unwrap();
    assert_eq!(tree.render(), "code == 7\n  actual: 42\n");
    let members = InCodePredicate::new(vec![2, 42]);
    let tree = members.find_case(&7).unwrap();
    assert_eq!(tree.render(), "code in [2, 42]\n  actual: 7\n");
}
