use omarchy_theme::abi::{get_entry, load_plan, poll_code, rgba_slot, LoadPlan, CODE_ARG, CODE_ERROR, HEADER_SIZE};
use omarchy_theme::{Rgba, Signature};

#[test]
fn color_slots_pack_or_zero() {
    assert_eq!(rgba_slot(Some(Rgba { r: 0x89, g: 0xb4, b: 0xfa, a: 0xff })), 0x89b4faff);
    assert_eq!(rgba_slot(None), 0);
}

#[test]
fn zeroed_abi_size_is_rejected() {
    assert_eq!(load_plan(0, 1560), LoadPlan::Reject);
    assert_eq!(load_plan(HEADER_SIZE - 1, 1560), LoadPlan::Reject);
    assert_eq!(load_plan(88, 1560), LoadPlan::Prefix(88));
    assert_eq!(load_plan(1560, 1560), LoadPlan::Full);
    assert_eq!(load_plan(2000, 1560), LoadPlan::Full);
}

#[test]
fn poll_answers() {
    let a = Signature::new(Some("one".into()), None, None, None);
    let b = Signature::new(Some("two".into()), None, None, None);
    assert_eq!(poll_code(None, false, Some(&a)), 1);
    assert_eq!(poll_code(None, true, None), 0);
    assert_eq!(poll_code(Some(&a), false, Some(&b)), 0);
    assert_eq!(poll_code(Some(&a), true, Some(&b)), 1);
    assert_eq!(poll_code(Some(&a), true, Some(&a)), 0);
    // the theme cannot be read although its colors file is there
    assert_eq!(poll_code(Some(&a), true, None), CODE_ERROR);
    assert_eq!(CODE_ERROR, -1);
}

#[test]
fn get_finds_the_first_fitting_entry() {
    let entries = vec![
        ("accent".to_string(), "#89b4fa".to_string()),
        ("bg".to_string(), "#1e1e2e".to_string()),
        ("name".to_string(), "été".to_string()),
    ];
    assert_eq!(get_entry(&entries, "bg", 64), Ok(1));
    assert_eq!(get_entry(&entries, "bg", 8), Ok(1));
    assert_eq!(get_entry(&entries, "bg", 7), Err(CODE_ARG));
    assert_eq!(get_entry(&entries, "missing", 64), Err(CODE_ERROR));
    // bytes, not characters: "été" is five bytes
    assert_eq!(get_entry(&entries, "name", 6), Ok(2));
    assert_eq!(get_entry(&entries, "name", 5), Err(CODE_ARG));
}
