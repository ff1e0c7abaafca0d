use frenetic::{
    Canceled, Context, Control, Coroutine, Finished, GeneratorState, Phase, STACK_ALIGNMENT,
    STACK_MINIMUM,
};

/// A coroutine on `stack`, for a machine whose stacks grow down.
fn spawn<Y, R>(stack: &mut [u8]) -> Coroutine<Y, R> {
    Coroutine::new(stack.as_mut_ptr() as usize, stack.len(), false)
}

/// Runs a body that fits between two switches: from where it gets its handle
/// to where it returns.
fn run_to_end<Y, R, F>(coro: &mut Coroutine<Y, R>, mut body: F)
where
    F: FnMut(Control<'_, Y, R>) -> Result<Finished<R>, Canceled>,
{
    let outcome = body(coro.control());
    coro.conclude(outcome);
}

#[test]
fn stack() {
    let mut stack = [1u8; STACK_MINIMUM * 4];

    let mut coro = spawn::<i32, &str>(stack.as_mut());

    // The body runs up to `c.yield_value(1)`.
    coro.begin_resume();
    assert!(coro.control().yield_value(1).is_ok());
    match coro.finish_resume() {
        GeneratorState::Yielded(1) => {}
        _ => panic!("unexpected return from resume"),
    }

    // The body goes on behind the yield and returns `c.done("foo")`.
    coro.begin_resume();
    run_to_end(&mut coro, |c| {
        let c = c.resumed()?;
        c.done("foo")
    });
    match coro.finish_resume() {
        GeneratorState::Complete("foo") => {}
        _ => panic!("unexpected return from resume"),
    }
}

#[test]
fn heap() {
    let mut stack = Box::new([1u8; STACK_MINIMUM]);

    let mut coro = spawn::<i32, &str>(stack.as_mut());

    coro.begin_resume();
    assert!(coro.control().yield_value(1).is_ok());
    match coro.finish_resume() {
        GeneratorState::Yielded(1) => {}
        _ => panic!("unexpected return from resume"),
    }

    coro.begin_resume();
    run_to_end(&mut coro, |c| {
        let c = c.resumed()?;
        c.done("foo")
    });
    match coro.finish_resume() {
        GeneratorState::Complete("foo") => {}
        _ => panic!("unexpected return from resume"),
    }
}

#[test]
fn cancel() {
    let mut cancelled = false;

    {
        let mut stack = [1u8; STACK_MINIMUM];

        let mut coro = spawn::<i32, &str>(stack.as_mut());

        coro.begin_resume();
        assert!(coro.control().yield_value(1).is_ok());
        match coro.finish_resume() {
            GeneratorState::Yielded(1) => {}
            _ => panic!("unexpected return from resume"),
        }

        // The coroutine is given up: the body is switched into once more, and
        // the yield it is paused at returns.
        assert!(coro.cancel());
        run_to_end(&mut coro, |c| match c.resumed() {
            Ok(c) => c.done("foo"),
            Err(v) => {
                cancelled = true;
                Err(v)
            }
        });
    }

    assert!(cancelled);
}

#[test]
fn coro_early_drop_yield_done() {
    let mut stack = [1u8; STACK_MINIMUM];

    let mut coro = spawn::<i32, &str>(stack.as_mut());

    assert!(coro.cancel());
    run_to_end(&mut coro, |c| {
        let c = c.yield_value(1)?;
        c.done("foo")
    });
    assert!(!coro.is_delivered());
    assert_eq!(coro.phase(), Phase::Finished);
}

#[test]
fn coro_early_drop_done_only() {
    let mut stack = [1u8; STACK_MINIMUM];

    let mut coro = spawn::<i32, &str>(stack.as_mut());

    assert!(coro.cancel());
    run_to_end(&mut coro, |c: Control<'_, i32, &str>| c.done("foo"));
    assert!(!coro.is_delivered());
    assert_eq!(coro.phase(), Phase::Finished);
}

#[test]
fn coro_early_drop_result_ok() {
    let mut stack = [1u8; STACK_MINIMUM];

    let mut coro = spawn::<i32, &str>(stack.as_mut());

    assert!(coro.cancel());
    run_to_end(&mut coro, |_c: Control<'_, i32, &str>| Ok(Finished("foo")));
    assert_eq!(coro.phase(), Phase::Finished);
}

#[test]
fn coro_early_drop_result_err() {
    let mut stack = [1u8; STACK_MINIMUM];

    let mut coro = spawn::<i32, &str>(stack.as_mut());

    assert!(coro.cancel());
    run_to_end(&mut coro, |_c: Control<'_, i32, &str>| Err(Canceled(())));
    assert_eq!(coro.phase(), Phase::Finished);
}

#[test]
fn new_coroutine_is_fresh() {
    let mut stack = [0u8; STACK_MINIMUM];
    let base = stack.as_mut_ptr() as usize;

    let coro = spawn::<u8, u8>(stack.as_mut());

    assert_eq!(coro.phase(), Phase::Fresh);
    assert!(coro.is_resumable());
    assert!(!coro.body_has_control());
    assert!(!coro.is_delivered());
    assert_eq!(coro.stack_top() % STACK_ALIGNMENT, 0);
    assert!(base <= coro.stack_top() && coro.stack_top() < base + STACK_MINIMUM);
    assert!(coro.stack_top() + STACK_ALIGNMENT > base + STACK_MINIMUM - 1);
}

#[test]
fn new_coroutine_places_stack_by_direction() {
    let down: Coroutine<u8, u8> = Coroutine::new(0x1003, STACK_MINIMUM, false);
    assert_eq!(down.stack_top(), 0x2000);

    let up: Coroutine<u8, u8> = Coroutine::new(0x1003, STACK_MINIMUM, true);
    assert_eq!(up.stack_top(), 0x1010);
}

#[test]
fn immediate_completion_without_yield() {
    let mut stack = [0u8; STACK_MINIMUM];
    let mut coro = spawn::<i32, &str>(stack.as_mut());

    coro.begin_resume();
    assert_eq!(coro.phase(), Phase::Running);
    assert!(coro.body_has_control());
    run_to_end(&mut coro, |c| c.done("foo"));
    assert!(coro.is_delivered());
    match coro.finish_resume() {
        GeneratorState::Complete("foo") => {}
        _ => panic!("unexpected return from resume"),
    }
    assert_eq!(coro.phase(), Phase::Finished);
}

#[test]
fn completion_is_single_and_final() {
    let mut stack = [0u8; STACK_MINIMUM];
    let mut coro = spawn::<i32, &str>(stack.as_mut());

    coro.begin_resume();
    assert!(coro.control().yield_value(1).is_ok());
    assert!(matches!(coro.finish_resume(), GeneratorState::Yielded(1)));
    assert!(coro.is_resumable());

    coro.begin_resume();
    run_to_end(&mut coro, |c| c.resumed()?.done("foo"));
    assert!(matches!(coro.finish_resume(), GeneratorState::Complete("foo")));

    // A third resume has nothing to go on.
    assert!(!coro.is_resumable());
    assert!(!coro.is_delivered());
    assert!(!coro.body_has_control());
    assert_eq!(coro.phase(), Phase::Finished);

    // Dropping a finished coroutine switches nowhere and changes nothing.
    assert!(!coro.cancel());
    assert_eq!(coro.phase(), Phase::Finished);
    assert!(!coro.body_has_control());
}

#[test]
fn yields_come_before_the_completion() {
    let mut stack = [0u8; STACK_MINIMUM];
    let mut coro = spawn::<u32, u32>(stack.as_mut());
    let mut seen = Vec::new();

    coro.begin_resume();
    assert!(coro.control().yield_value(10).is_ok());
    seen.push(coro.finish_resume());
    for value in [20u32, 30, 40] {
        assert_eq!(coro.phase(), Phase::Suspended);
        coro.begin_resume();
        let c = coro.control().resumed().unwrap();
        assert!(c.yield_value(value).is_ok());
        seen.push(coro.finish_resume());
    }
    coro.begin_resume();
    run_to_end(&mut coro, |c| c.resumed()?.done(50));
    seen.push(coro.finish_resume());

    assert_eq!(seen.len(), 5);
    for (i, state) in seen.iter().enumerate() {
        match state {
            GeneratorState::Yielded(v) => {
                assert!(i < 4);
                assert_eq!(*v, 10 * (i as u32 + 1));
            }
            GeneratorState::Complete(v) => {
                assert_eq!(i, 4);
                assert_eq!(*v, 50);
            }
        }
    }
    assert!(!coro.is_resumable());
}

#[test]
fn values_arrive_unchanged() {
    let mut stack = [0u8; STACK_MINIMUM];
    let mut coro = spawn::<Vec<u8>, String>(stack.as_mut());

    coro.begin_resume();
    assert!(coro.control().yield_value(vec![0xde, 0xad, 0xbe, 0xef]).is_ok());
    match coro.finish_resume() {
        GeneratorState::Yielded(bytes) => assert_eq!(bytes, vec![0xde, 0xad, 0xbe, 0xef]),
        GeneratorState::Complete(_) => panic!("unexpected return from resume"),
    }

    coro.begin_resume();
    run_to_end(&mut coro, |c| c.resumed()?.done(String::from("the end")));
    match coro.finish_resume() {
        GeneratorState::Complete(text) => assert_eq!(text, "the end"),
        GeneratorState::Yielded(_) => panic!("unexpected return from resume"),
    }
}

#[test]
fn resume_empties_the_transfer_slot() {
    let mut stack = [0u8; STACK_MINIMUM];
    let mut coro = spawn::<i32, i32>(stack.as_mut());

    coro.begin_resume();
    assert!(!coro.is_delivered());
    assert!(coro.control().yield_value(7).is_ok());
    assert!(coro.is_delivered());
    assert!(matches!(coro.finish_resume(), GeneratorState::Yielded(7)));
    assert!(!coro.is_delivered());

    coro.begin_resume();
    assert!(!coro.is_delivered());
    // A body that returns the cancellation error on its own leaves nothing.
    run_to_end(&mut coro, |_c| Err(Canceled(())));
    assert!(!coro.is_delivered());
    assert_eq!(coro.phase(), Phase::Running);
    assert!(coro.has_returned());
    assert!(!coro.body_has_control());

    // Its stack is dead: dropping the coroutine switches nowhere.
    assert!(coro.is_droppable());
    assert!(!coro.cancel());
    assert_eq!(coro.phase(), Phase::Finished);
    assert!(!coro.body_has_control());
}

#[test]
fn body_acts_only_while_it_has_control() {
    let mut stack = [0u8; STACK_MINIMUM];
    let mut coro = spawn::<i32, i32>(stack.as_mut());
    assert!(!coro.body_has_control());
    assert!(coro.is_droppable());
    assert!(!coro.has_returned());

    coro.begin_resume();
    assert!(coro.body_has_control());
    assert!(!coro.is_droppable());
    assert!(!coro.is_resumable());

    assert!(coro.control().yield_value(1).is_ok());
    assert!(!coro.body_has_control());
    assert!(coro.is_delivered());
    assert!(!coro.is_droppable());

    assert!(matches!(coro.finish_resume(), GeneratorState::Yielded(1)));
    assert!(!coro.body_has_control());
    assert!(coro.is_resumable());
    assert!(coro.is_droppable());

    coro.begin_resume();
    run_to_end(&mut coro, |c| c.resumed()?.done(2));
    assert!(coro.has_returned());
    assert!(!coro.body_has_control());
    assert!(coro.is_delivered());
    assert!(matches!(coro.finish_resume(), GeneratorState::Complete(2)));
    assert!(coro.has_returned());
}

#[test]
fn canceled_body_that_completes_is_not_observed() {
    let mut stack = [0u8; STACK_MINIMUM];
    let mut coro = spawn::<i32, &str>(stack.as_mut());

    coro.begin_resume();
    assert!(coro.control().yield_value(1).is_ok());
    assert!(matches!(coro.finish_resume(), GeneratorState::Yielded(1)));

    assert!(coro.cancel());
    // The body swallows the cancellation and completes all the same.
    run_to_end(&mut coro, |c| match c.resumed() {
        Ok(c) => c.done("foo"),
        Err(_) => Ok(Finished("bar")),
    });
    assert!(coro.has_returned());
    assert!(!coro.is_delivered());
    assert!(!coro.is_resumable());
    assert!(!coro.body_has_control());
    assert!(!coro.cancel());
}

#[test]
fn later_yield_replaces_nothing_the_driver_took() {
    let mut stack = [0u8; STACK_MINIMUM];
    let mut coro = spawn::<i32, i32>(stack.as_mut());

    coro.begin_resume();
    assert!(coro.control().yield_value(1).is_ok());
    assert!(matches!(coro.finish_resume(), GeneratorState::Yielded(1)));
    coro.begin_resume();
    assert!(coro.control().yield_value(2).is_ok());
    assert!(matches!(coro.finish_resume(), GeneratorState::Yielded(2)));
}

#[test]
fn canceled_body_is_refused_every_time() {
    let mut stack = [0u8; STACK_MINIMUM];
    let mut coro = spawn::<i32, &str>(stack.as_mut());

    coro.begin_resume();
    assert!(coro.control().yield_value(1).is_ok());
    assert!(matches!(coro.finish_resume(), GeneratorState::Yielded(1)));

    assert!(coro.cancel());
    assert_eq!(coro.phase(), Phase::Finished);
    assert!(coro.body_has_control());
    assert!(!coro.is_resumable());

    assert!(coro.control().resumed().is_err());
    assert!(coro.control().yield_value(2).is_err());
    assert!(coro.control().yield_value(3).is_err());
    assert!(!coro.is_delivered());

    // Giving up twice is giving up once.
    assert!(!coro.cancel());
    assert!(coro.control().resumed().is_err());
}

#[test]
fn resumed_body_is_not_refused() {
    let mut stack = [0u8; STACK_MINIMUM];
    let mut coro = spawn::<i32, &str>(stack.as_mut());

    coro.begin_resume();
    let c = coro.control().resumed().unwrap();
    let c = c.resumed().unwrap();
    assert!(c.yield_value(5).is_ok());
    assert!(matches!(coro.finish_resume(), GeneratorState::Yielded(5)));
}

#[test]
fn done_wraps_the_value_for_any_error_type() {
    let mut ctx: Context<i32, &str> = Context::default();

    let token: Result<Finished<&str>, Canceled> = Control(&mut ctx).done("foo");
    assert_eq!(token.unwrap().0, "foo");

    let token: Result<Finished<&str>, String> = Control(&mut ctx).done("bar");
    assert_eq!(token.unwrap().0, "bar");
    assert!(!ctx.has_transfer());
    assert!(!ctx.is_canceled());
}

#[test]
fn control_on_a_bare_record() {
    let mut ctx: Context<u64, ()> = Context::default();
    assert!(!ctx.has_transfer());
    assert!(!ctx.is_canceled());

    let c = Control(&mut ctx);
    let c = c.resumed().unwrap();
    assert!(!c.0.has_transfer());
    let c = c.yield_value(99).unwrap();
    assert!(c.0.has_transfer());
    assert!(!c.0.is_canceled());
    assert!(ctx.has_transfer());
}
