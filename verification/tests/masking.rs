use kernel_irq::{
    exec_with_irq_masked, is_local_irq_masked, local_irq_mask, local_irq_mask_save,
    local_irq_restore, local_irq_unmask, IRQContext, LocalIRQState,
};

#[test]
fn a_new_state_is_masked_as_asked() {
    assert!(is_local_irq_masked(&LocalIRQState::new(true)));
    assert!(!is_local_irq_masked(&LocalIRQState::new(false)));
}

#[test]
fn mask_masks_and_unmask_unmasks() {
    let mut core = LocalIRQState::new(false);
    local_irq_mask(&mut core);
    assert!(is_local_irq_masked(&core));
    local_irq_mask(&mut core);
    assert!(is_local_irq_masked(&core));
    local_irq_unmask(&mut core);
    assert!(!is_local_irq_masked(&core));
    local_irq_unmask(&mut core);
    assert!(!is_local_irq_masked(&core));
}

#[test]
fn mask_save_masks_and_returns_the_state_before() {
    let mut core = LocalIRQState::new(false);
    let saved = local_irq_mask_save(&mut core);
    assert!(is_local_irq_masked(&core));
    assert_eq!(saved, LocalIRQState::new(false));

    let saved_again = local_irq_mask_save(&mut core);
    assert!(is_local_irq_masked(&core));
    assert_eq!(saved_again, LocalIRQState::new(true));
}

#[test]
fn restore_reinstates_the_saved_state() {
    let mut core = LocalIRQState::new(false);
    let saved = local_irq_mask_save(&mut core);
    local_irq_restore(&mut core, saved);
    assert!(!is_local_irq_masked(&core));

    let mut masked_core = LocalIRQState::new(true);
    let saved = local_irq_mask_save(&mut masked_core);
    local_irq_unmask(&mut masked_core);
    local_irq_restore(&mut masked_core, saved);
    assert!(is_local_irq_masked(&masked_core));
}

#[test]
fn the_closure_runs_masked_and_the_state_comes_back() {
    let mut core = LocalIRQState::new(false);
    let seen = exec_with_irq_masked(&mut core, |core| is_local_irq_masked(core));
    assert!(seen);
    assert!(!is_local_irq_masked(&core));
    assert_eq!(core, LocalIRQState::new(false));
}

#[test]
fn a_masked_core_stays_masked() {
    let mut core = LocalIRQState::new(true);
    let seen = exec_with_irq_masked(&mut core, |core| is_local_irq_masked(core));
    assert!(seen);
    assert!(is_local_irq_masked(&core));
}

#[test]
fn the_result_of_the_closure_is_returned() {
    let mut core = LocalIRQState::new(false);
    let number = exec_with_irq_masked(&mut core, |_| 42u32);
    assert_eq!(number, 42);
    let text = exec_with_irq_masked(&mut core, |_| String::from("done"));
    assert_eq!(text, "done");
    let moved = vec![1u8, 2, 3];
    let back = exec_with_irq_masked(&mut core, move |_| moved);
    assert_eq!(back, vec![1u8, 2, 3]);
}

#[test]
fn a_failure_reported_by_the_closure_still_restores_the_state() {
    let mut core = LocalIRQState::new(false);
    let result: Result<u32, &'static str> =
        exec_with_irq_masked(&mut core, |_| Err("gave up early"));
    assert_eq!(result, Err("gave up early"));
    assert!(!is_local_irq_masked(&core));
}

#[test]
fn a_closure_that_unmasks_does_not_leak_its_change() {
    let mut core = LocalIRQState::new(true);
    exec_with_irq_masked(&mut core, |core| local_irq_unmask(core));
    assert!(is_local_irq_masked(&core));

    let mut unmasked_core = LocalIRQState::new(false);
    exec_with_irq_masked(&mut unmasked_core, |core| {
        local_irq_unmask(core);
        local_irq_mask(core);
    });
    assert!(!is_local_irq_masked(&unmasked_core));
}

#[test]
fn nested_calls_restore_in_reverse_order() {
    let mut core = LocalIRQState::new(false);
    let mut trace: Vec<bool> = Vec::new();
    exec_with_irq_masked(&mut core, |core| {
        trace.push(is_local_irq_masked(core));
        exec_with_irq_masked(core, |core| {
            trace.push(is_local_irq_masked(core));
            exec_with_irq_masked(core, |core| {
                trace.push(is_local_irq_masked(core));
                local_irq_unmask(core);
                trace.push(is_local_irq_masked(core));
            });
            trace.push(is_local_irq_masked(core));
        });
        trace.push(is_local_irq_masked(core));
    });
    trace.push(is_local_irq_masked(&core));
    assert_eq!(trace, vec![true, true, true, false, true, true, false]);
}

#[test]
fn an_inner_call_returns_to_the_state_of_its_own_entry() {
    let mut core = LocalIRQState::new(true);
    let after_inner = exec_with_irq_masked(&mut core, |core| {
        local_irq_unmask(core);
        exec_with_irq_masked(core, |core| assert!(is_local_irq_masked(core)));
        is_local_irq_masked(core)
    });
    assert!(!after_inner);
    assert!(is_local_irq_masked(&core));
}

#[test]
fn a_token_can_be_made_on_a_masked_core_and_copied() {
    let core = LocalIRQState::new(true);
    let token = IRQContext::new(&core);
    let copy = token;
    let clone = token.clone();
    let _all = (token, copy, clone);
    assert_eq!(std::mem::size_of::<IRQContext>(), 0);
    assert!(is_local_irq_masked(&core));
}
