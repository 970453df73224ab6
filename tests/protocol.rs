use command_guardian::{
    answer_decision, classify_answer, Coordinator, InputStep, Phase, SigIntAction, SignalStep,
};

#[test]
fn new_coordinator_is_idle() {
    let c = Coordinator::new();
    assert!(!c.is_suppressed());
    assert!(!c.is_confirming());
    assert_eq!(c.action, SigIntAction::Continue);
    assert_eq!(c.phase, Phase::Idle);
}

#[test]
fn classify_trimmed_answers() {
    assert_eq!(classify_answer("Y"), SigIntAction::Terminate);
    assert_eq!(classify_answer("n"), SigIntAction::Continue);
    assert_eq!(classify_answer("N"), SigIntAction::Continue);
    assert_eq!(classify_answer(""), SigIntAction::Continue);
    assert_eq!(classify_answer("y"), SigIntAction::Invalid);
    assert_eq!(classify_answer("yes"), SigIntAction::Invalid);
    assert_eq!(classify_answer("no"), SigIntAction::Invalid);
    assert_eq!(classify_answer("YY"), SigIntAction::Invalid);
}

#[test]
fn answer_lines_are_trimmed() {
    assert_eq!(answer_decision("Y\n"), SigIntAction::Terminate);
    assert_eq!(answer_decision("  Y \r\n"), SigIntAction::Terminate);
    assert_eq!(answer_decision("n\n"), SigIntAction::Continue);
    assert_eq!(answer_decision("\tN\n"), SigIntAction::Continue);
    assert_eq!(answer_decision("\n"), SigIntAction::Continue);
    assert_eq!(answer_decision("   \n"), SigIntAction::Continue);
    assert_eq!(answer_decision("garbage\n"), SigIntAction::Invalid);
    assert_eq!(answer_decision("y\n"), SigIntAction::Invalid);
}

#[test]
fn lines_are_forwarded_without_interrupt() {
    let mut c = Coordinator::new();
    assert_eq!(c.on_line("Y\n"), InputStep::Forward);
    assert_eq!(c.on_line("hello\n"), InputStep::Forward);
    assert_eq!(c, Coordinator::new());
}

#[test]
fn interrupt_opens_a_round() {
    let mut c = Coordinator::new();
    assert_eq!(c.on_interrupt(), SignalStep::Prompt);
    assert!(c.is_suppressed());
    assert!(c.is_confirming());
    assert_eq!(c.phase, Phase::Prompting);
    assert_eq!(c.poll(), SignalStep::Wait);
    assert_eq!(c.poll(), SignalStep::Wait);
    assert!(c.is_confirming());
}

#[test]
fn interrupt_during_a_round_is_ignored() {
    let mut c = Coordinator::new();
    assert_eq!(c.on_interrupt(), SignalStep::Prompt);
    let before = c;
    assert_eq!(c.on_interrupt(), SignalStep::Ignore);
    assert_eq!(c, before);
}

#[test]
fn decline_with_capital_n_continues() {
    // the command goes on; what is typed next reaches it
    let mut c = Coordinator::new();
    assert_eq!(c.on_interrupt(), SignalStep::Prompt);
    assert_eq!(c.on_line("N\n"), InputStep::Resumed);
    assert_eq!(c.action, SigIntAction::Continue);
    assert!(!c.is_confirming());
    assert_eq!(c.poll(), SignalStep::Resume);
    assert!(!c.is_suppressed());
    assert_eq!(c.phase, Phase::Idle);
    assert_eq!(c.on_line("next line\n"), InputStep::Forward);
    assert_eq!(c.on_line("N\n"), InputStep::Forward);
}

#[test]
fn decline_with_small_n_or_enter_continues() {
    for answer in ["n\n", "\n", "N\n", " n \n"] {
        let mut c = Coordinator::new();
        assert_eq!(c.on_interrupt(), SignalStep::Prompt);
        assert_eq!(c.on_line(answer), InputStep::Resumed);
        assert!(c.is_suppressed());
        assert_eq!(c.poll(), SignalStep::Resume);
        assert!(!c.is_suppressed());
        assert_eq!(c.on_line("data\n"), InputStep::Forward);
    }
}

#[test]
fn confirm_terminates() {
    let mut c = Coordinator::new();
    assert_eq!(c.on_interrupt(), SignalStep::Prompt);
    assert_eq!(c.on_line("Y\n"), InputStep::SignalChild);
    assert_eq!(c.action, SigIntAction::Terminate);
    assert!(!c.is_suppressed());
    assert!(!c.is_confirming());
    assert_eq!(c.poll(), SignalStep::Exit);
    assert!(!c.is_suppressed());
    assert_eq!(c.phase, Phase::Terminated);
    assert_eq!(c.on_interrupt(), SignalStep::Ignore);
}

#[test]
fn invalid_then_confirm_terminates() {
    let mut c = Coordinator::new();
    let mut headers = 0;
    let mut rejected = 0;
    if c.on_interrupt() == SignalStep::Prompt {
        headers += 1;
    }
    if c.on_line("garbage\n") == InputStep::Rejected {
        rejected += 1;
    }
    assert!(c.is_suppressed());
    assert_eq!(c.poll(), SignalStep::Reprompt);
    assert!(c.is_suppressed());
    assert!(c.is_confirming());
    assert_eq!(c.poll(), SignalStep::Wait);
    assert_eq!(c.on_line("Y\n"), InputStep::SignalChild);
    assert_eq!(c.poll(), SignalStep::Exit);
    assert_eq!(headers, 1);
    assert_eq!(rejected, 1);
    assert!(!c.is_suppressed());
}

#[test]
fn many_retries_show_one_header() {
    let mut c = Coordinator::new();
    let mut steps = vec![c.on_interrupt()];
    for answer in ["x\n", "yes\n", "y\n", "nope\n"] {
        assert_eq!(c.on_line(answer), InputStep::Rejected);
        steps.push(c.poll());
        steps.push(c.poll());
    }
    assert_eq!(c.on_line("n\n"), InputStep::Resumed);
    steps.push(c.poll());
    let headers = steps.iter().filter(|s| **s == SignalStep::Prompt).count();
    let reprompts = steps.iter().filter(|s| **s == SignalStep::Reprompt).count();
    assert_eq!(headers, 1);
    assert_eq!(reprompts, 4);
    assert_eq!(steps.last(), Some(&SignalStep::Resume));
}

#[test]
fn invalid_answer_keeps_output_held() {
    let mut c = Coordinator::new();
    c.on_interrupt();
    assert_eq!(c.on_line("maybe\n"), InputStep::Rejected);
    assert_eq!(c.action, SigIntAction::Invalid);
    assert!(c.is_suppressed());
    assert!(!c.is_confirming());
    assert_eq!(c.poll(), SignalStep::Reprompt);
    assert!(c.is_suppressed());
    assert_eq!(c.phase, Phase::Prompting);
}

#[test]
fn second_round_after_continue() {
    let mut c = Coordinator::new();
    assert_eq!(c.on_interrupt(), SignalStep::Prompt);
    assert_eq!(c.on_line("\n"), InputStep::Resumed);
    assert_eq!(c.poll(), SignalStep::Resume);
    assert_eq!(c.on_interrupt(), SignalStep::Prompt);
    assert!(c.is_suppressed());
    assert_eq!(c.on_line("Y\n"), InputStep::SignalChild);
    assert_eq!(c.poll(), SignalStep::Exit);
}

#[test]
fn natural_exit_never_prompts() {
    // without an interrupt nothing is held back and the handler has no round
    let mut c = Coordinator::new();
    assert_eq!(c.on_line("input\n"), InputStep::Forward);
    assert_eq!(c.poll(), SignalStep::Resume);
    assert_eq!(c.phase, Phase::Idle);
    assert!(!c.is_suppressed());
    assert!(!c.is_confirming());
}
