use clr_bootstrap::context::{get_run_context, run_context_for, RunMode};
use clr_bootstrap::handoff::{build_handoff_argument, ENTRY_METHOD, ENTRY_TYPE};
use clr_bootstrap::protocol::{CREATION_SYMBOL, HOST_LIBRARY, RUNTIME_VERSION};
use clr_bootstrap::render::{
    render_decimal, render_hexadecimal, render_status_decimal, render_status_hex,
};

#[test]
fn run_context_of_a_hook_target_build() {
    assert_eq!(get_run_context(), "d3d9");
    assert_eq!(run_context_for(RunMode::HookTarget), "d3d9");
}

#[test]
fn run_context_of_a_harness_build() {
    assert_eq!(run_context_for(RunMode::Harness), "mm_native");
}

#[test]
fn fixed_names() {
    assert_eq!(HOST_LIBRARY, "mscoree.dll");
    assert_eq!(CREATION_SYMBOL, "CLRCreateInstance");
    assert_eq!(RUNTIME_VERSION, "v4.0.30319");
    assert_eq!(ENTRY_TYPE, "ModelMod.Main");
    assert_eq!(ENTRY_METHOD, "Main");
}

#[test]
fn handoff_argument_of_4096_and_d3d9() {
    assert_eq!(build_handoff_argument(4096, "d3d9"), "4096|d3d9");
}

#[test]
fn handoff_argument_keeps_both_fields_as_they_are() {
    assert_eq!(build_handoff_argument(0, ""), "0|");
    assert_eq!(build_handoff_argument(0, "mm_native"), "0|mm_native");
    assert_eq!(build_handoff_argument(u64::MAX, "d3d9"), "18446744073709551615|d3d9");
    assert_eq!(build_handoff_argument(7, "a|b"), "7|a|b");
    assert_eq!(build_handoff_argument(140698833649664, "d3d9"), "140698833649664|d3d9");
}

#[test]
fn handoff_argument_is_what_formatting_gives() {
    for handle in [0u64, 9, 10, 99, 100, 4096, 0x7ff6_1234_0000, u64::MAX] {
        for context in ["d3d9", "mm_native", ""] {
            assert_eq!(build_handoff_argument(handle, context), format!("{}|{}", handle, context));
        }
    }
}

#[test]
fn handoff_fields_can_be_read_back() {
    let argument = build_handoff_argument(4096, "d3d9|x");
    let cut = argument.find('|').unwrap();
    assert_eq!(&argument[..cut], "4096");
    assert_eq!(&argument[cut + 1..], "d3d9|x");
}

#[test]
fn decimal_rendering() {
    assert_eq!(render_decimal(0), "0");
    assert_eq!(render_decimal(7), "7");
    assert_eq!(render_decimal(10), "10");
    assert_eq!(render_decimal(4096), "4096");
    assert_eq!(render_decimal(1000000), "1000000");
    assert_eq!(render_decimal(u64::MAX), "18446744073709551615");
    for n in [0u64, 1, 9, 10, 11, 99, 100, 101, 65535, 65536, 1 << 32, u64::MAX - 1] {
        assert_eq!(render_decimal(n), format!("{}", n));
    }
}

#[test]
fn hexadecimal_rendering() {
    assert_eq!(render_hexadecimal(0), "0");
    assert_eq!(render_hexadecimal(10), "a");
    assert_eq!(render_hexadecimal(15), "f");
    assert_eq!(render_hexadecimal(16), "10");
    assert_eq!(render_hexadecimal(0xdead_beef), "deadbeef");
    assert_eq!(render_hexadecimal(u64::MAX), "ffffffffffffffff");
    for n in [0u64, 1, 9, 10, 15, 16, 17, 255, 256, 0x8000_4005, u64::MAX - 1] {
        assert_eq!(render_hexadecimal(n), format!("{:x}", n));
    }
}

#[test]
fn status_in_base_ten() {
    assert_eq!(render_status_decimal(0), "0");
    assert_eq!(render_status_decimal(1), "1");
    assert_eq!(render_status_decimal(-1), "-1");
    assert_eq!(render_status_decimal(-2147467259), "-2147467259");
    assert_eq!(render_status_decimal(i32::MAX), "2147483647");
    assert_eq!(render_status_decimal(i32::MIN), "-2147483648");
    for status in [0i32, 1, -1, 10, -10, 12345, -12345, i32::MAX, i32::MIN, i32::MIN + 1] {
        assert_eq!(render_status_decimal(status), format!("{}", status));
    }
}

#[test]
fn status_in_base_sixteen() {
    assert_eq!(render_status_hex(0), "0");
    assert_eq!(render_status_hex(1), "1");
    assert_eq!(render_status_hex(255), "ff");
    assert_eq!(render_status_hex(-1), "ffffffff");
    assert_eq!(render_status_hex(-2147467259), "80004005");
    assert_eq!(render_status_hex(i32::MAX), "7fffffff");
    assert_eq!(render_status_hex(i32::MIN), "80000000");
    for status in [0i32, 1, -1, 16, -16, 0x1234_5678, -2146232576, i32::MAX, i32::MIN] {
        assert_eq!(render_status_hex(status), format!("{:x}", status));
    }
}
