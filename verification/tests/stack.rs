use frenetic::{align_offset, stack_grows_up, stack_top, STACK_ALIGNMENT, STACK_MINIMUM};

#[test]
fn constants() {
    assert_eq!(STACK_MINIMUM, 4096);
    assert_eq!(STACK_ALIGNMENT, 16);
}

#[test]
fn align_offset_counts_up_to_the_next_multiple() {
    assert_eq!(align_offset(0), 0);
    assert_eq!(align_offset(1), 15);
    assert_eq!(align_offset(15), 1);
    assert_eq!(align_offset(16), 0);
    assert_eq!(align_offset(17), 15);
    assert_eq!(align_offset(0x1008), 8);
    assert_eq!(align_offset(usize::MAX), 1);
    assert_eq!(align_offset(usize::MAX - 15), 0);
}

#[test]
fn downward_stack_starts_at_last_byte_rounded_down() {
    // The last byte is at 0x1fff.
    assert_eq!(stack_top(0x1000, 4096, false), 0x1ff0);
    // The last byte is at 0x2000, which is aligned: the top byte counts.
    assert_eq!(stack_top(0x1001, 4096, false), 0x2000);
    assert_eq!(stack_top(0x1002, 4096, false), 0x2000);
    assert_eq!(stack_top(0x1010, 4096, false), 0x2000);
    assert_eq!(stack_top(0x1011, 4096, false), 0x2010);
    assert_eq!(stack_top(0, 4096, false), 4080);
    assert_eq!(stack_top(0x1000, 4097, false), 0x2000);
    assert_eq!(stack_top(0x7000, 8 * 4096, false), 0xeff0);
}

#[test]
fn upward_stack_starts_at_first_byte_rounded_up() {
    assert_eq!(stack_top(0x1000, 4096, true), 0x1000);
    assert_eq!(stack_top(0x1001, 4096, true), 0x1010);
    assert_eq!(stack_top(0x100f, 4096, true), 0x1010);
    assert_eq!(stack_top(0x1010, 4096, true), 0x1010);
    assert_eq!(stack_top(0, 4096, true), 0);
    assert_eq!(stack_top(0x7003, 8 * 4096, true), 0x7010);
}

#[test]
fn stack_top_at_the_end_of_the_address_space() {
    let base = usize::MAX - 4096;
    assert_eq!(stack_top(base, 4096, false), usize::MAX - 15);
    assert_eq!(stack_top(base, 4096, true), base + 1);
}

#[test]
fn stack_top_is_aligned_and_inside_every_buffer() {
    for base in 0x4000usize..0x4040 {
        for len in [4096usize, 4097, 4111, 5000] {
            for up in [false, true] {
                let top = stack_top(base, len, up);
                assert_eq!(top % STACK_ALIGNMENT, 0);
                assert!(base <= top && top < base + len);
                if up {
                    assert!(top < base + STACK_ALIGNMENT);
                } else {
                    assert!(top + STACK_ALIGNMENT > base + len - 1);
                }
            }
        }
    }
}

#[test]
fn growth_direction_follows_the_callee() {
    assert!(stack_grows_up(0x1000, 0x1040));
    assert!(!stack_grows_up(0x1040, 0x1000));
    assert!(!stack_grows_up(0x1000, 0x1000));
}
