use cstr_core::CStr;
use mjs_sys::{JSError, Kind, Reply, Val, MAX_ARGS, VM};

fn vm() -> VM {
    VM::from_inner(0x1000)
}

#[test]
fn from_inner_keeps_address() {
    let vm = VM::from_inner(0xdead);
    assert_eq!(vm.get_inner(), 0xdead);
    let copy = vm;
    assert_eq!(copy.get_inner(), vm.get_inner());
}

#[test]
fn unterminated_source_is_refused() {
    assert_eq!(VM::check_source(b"1 / 2"), Err(JSError::NonNullTerminatedString));
    assert_eq!(VM::check_source(b""), Err(JSError::NonNullTerminatedString));
    assert_eq!(VM::check_source(b"\0x"), Err(JSError::NonNullTerminatedString));
}

#[test]
fn terminated_source_is_accepted() {
    assert_eq!(VM::check_source(b"1 / 2\0"), Ok(()));
    assert_eq!(VM::check_source(b"\0"), Ok(()));
}

#[test]
fn val_records_engine_word_and_tag() {
    let vm = vm();
    let v = vm.val(42, Kind::Number);
    assert_eq!(v.vm(), vm);
    assert_eq!(v.word(), 42);
    assert_eq!(*v.word_ref(), 42);
    assert_eq!(v.kind(), Kind::Number);
    assert!(!v.is_rooted());
}

#[test]
fn type_predicates_follow_the_tag() {
    let vm = vm();
    let n = vm.val(1, Kind::Number);
    assert!(n.is_number() && !n.is_string() && !n.is_object() && !n.is_function() && !n.is_foreign());
    let s = vm.val(2, Kind::Str);
    assert!(s.is_string() && !s.is_number());
    let o = vm.val(3, Kind::Object);
    assert!(o.is_object() && !o.is_function());
    let f = vm.val(4, Kind::Function);
    assert!(f.is_function() && !f.is_object());
    let p = vm.val(5, Kind::Foreign);
    assert!(p.is_foreign() && !p.is_number());
    let u = vm.val(6, Kind::Undefined);
    assert!(!u.is_number() && !u.is_string() && !u.is_object() && !u.is_function() && !u.is_foreign());
}

#[test]
fn conversion_only_on_matching_tag() {
    let vm = vm();
    let n = vm.val(77, Kind::Number);
    assert_eq!(n.word_if(Kind::Number), Some(77));
    assert_eq!(n.word_if(Kind::Str), None);
    assert_eq!(n.word_if(Kind::Foreign), None);
}

#[test]
fn own_then_disown_registers_once() {
    let vm = vm();
    let mut v = vm.val(9, Kind::Str);
    assert!(v.own());
    assert!(v.is_rooted());
    assert!(!v.own());
    assert!(v.is_rooted());
    assert_eq!(v.word(), 9);
    assert!(v.is_string());
    assert!(v.disown());
    assert!(!v.is_rooted());
    assert!(!v.disown());
    assert!(!v.is_rooted());
}

#[test]
fn rooted_value_keeps_type_and_word() {
    let vm = vm();
    let mut v = vm.val(11, Kind::Number);
    v.own();
    assert!(v.is_number());
    assert_eq!(v.word_if(Kind::Number), Some(11));
}

#[test]
fn as_str_decodes_strings_only() {
    let vm = vm();
    let s = vm.val(1, Kind::Str);
    assert_eq!(s.as_str(b"foobar"), Some(Ok("foobar")));
    assert_eq!(s.as_str(b""), Some(Ok("")));
    assert!(matches!(s.as_str(&[0xff, 0xfe]), Some(Err(_))));
    let n = vm.val(2, Kind::Number);
    assert_eq!(n.as_str(b"foobar"), None);
}

#[test]
fn call_on_non_function_is_refused() {
    let vm = vm();
    let n = vm.val(1, Kind::Number);
    let a = vm.val(2, Kind::Number);
    assert!(matches!(n.plan_call(None, &[&a]), Err(JSError::NotAFunction)));
    let o = vm.val(3, Kind::Object);
    assert!(matches!(o.plan_call(None, &[]), Err(JSError::NotAFunction)));
}

#[test]
fn call_with_too_many_args_is_refused() {
    let vm = vm();
    let f = vm.val(1, Kind::Function);
    let a = vm.val(2, Kind::Number);
    let args: Vec<&Val> = vec![&a; MAX_ARGS + 1];
    assert!(matches!(f.plan_call(None, &args), Err(JSError::TooManyArgs)));
    // A non-function is refused first, whatever the count.
    let n = vm.val(3, Kind::Number);
    assert!(matches!(n.plan_call(None, &args), Err(JSError::NotAFunction)));
}

#[test]
fn call_marshals_receiver_and_arguments() {
    let vm = vm();
    let f = vm.val(100, Kind::Function);
    let x = vm.val(10, Kind::Number);
    let y = vm.val(20, Kind::Str);
    let req = f.plan_call(None, &[&x, &y]).unwrap();
    assert_eq!(req.func, 100);
    assert_eq!(req.this, None);
    assert_eq!(req.argv, vec![10, 20]);
    let this = vm.val(7, Kind::Object);
    let req = f.plan_call(Some(&this), &[]).unwrap();
    assert_eq!(req.this, Some(7));
    assert!(req.argv.is_empty());
}

#[test]
fn call_with_exactly_the_bound_is_accepted() {
    let vm = vm();
    let f = vm.val(1, Kind::Function);
    let vals: Vec<Val> = (0..MAX_ARGS as u64).map(|i| vm.val(i + 50, Kind::Number)).collect();
    let args: Vec<&Val> = vals.iter().collect();
    let req = f.plan_call(None, &args).unwrap();
    assert_eq!(req.argv, (50..58).collect::<Vec<u64>>());
}

#[test]
fn absent_argument_or_property_is_none() {
    let vm = vm();
    assert!(vm.present(5, Kind::Undefined).is_none());
    let v = vm.present(42, Kind::Number).unwrap();
    assert!(v.is_number());
    assert_eq!(v.word(), 42);
    assert_eq!(v.vm(), vm);
}

#[test]
fn finish_wraps_value_or_engine_error() {
    let vm = vm();
    let v = vm.finish(Reply::Value { word: 3, kind: Kind::Function }).unwrap();
    assert!(v.is_function());
    assert_eq!(v.word(), 3);
    let msg = CStr::from_bytes_with_nul(b"bad syntax\0").unwrap();
    match vm.finish(Reply::Failed(msg)) {
        Err(JSError::VMError(text)) => assert_eq!(text, "bad syntax"),
        _ => panic!("expected an engine error"),
    }
}

#[test]
fn finish_status_maps_failure() {
    assert_eq!(VM::finish_status(None), Ok(()));
    let msg = CStr::from_bytes_with_nul(b"type error\0").unwrap();
    assert_eq!(VM::finish_status(Some(msg)), Err(JSError::VMError("type error")));
}

#[test]
fn engine_message_decoding() {
    assert_eq!(JSError::from_message(b"out of memory"), JSError::VMError("out of memory"));
    assert_eq!(JSError::from_message(&[0xc3, 0x28]), JSError::VMError(""));
}
