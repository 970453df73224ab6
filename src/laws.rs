use vstd::prelude::*;
use vstd::utf8::{
    decode_utf8, decode_utf8_split, is_char_boundary_iff_not_is_continuation_byte,
    is_char_boundary_start_end_of_seq, valid_utf8, valid_utf8_concat,
};

use crate::coordinator::{Coordinator, Event, InputStep, Phase, SignalStep, StepOf};
use crate::decision::{trimmed_of, SigIntAction};
use crate::relay::{chunk_text, text_of};

verus! {

/// What a run of reads from one pseudo-terminal master puts on screen, where
/// `suppress[i]` is the value of the flag that read `i` saw.
pub open spec fn relayed(suppress: Seq<bool>, chunks: Seq<Seq<u8>>) -> Seq<char>
    decreases chunks.len(),
{
    if chunks.len() == 0 || suppress.len() == 0 {
        Seq::empty()
    } else {
        chunk_text(suppress[0], chunks[0]) + relayed(suppress.drop_first(), chunks.drop_first())
    }
}

/// The chunks that were read while output was not held back, in the order
/// in which they were read.
pub open spec fn released(suppress: Seq<bool>, chunks: Seq<Seq<u8>>) -> Seq<Seq<u8>>
    decreases chunks.len(),
{
    if chunks.len() == 0 || suppress.len() == 0 {
        Seq::empty()
    } else {
        let first = if suppress[0] {
            Seq::empty()
        } else {
            seq![chunks[0]]
        };
        first + released(suppress.drop_first(), chunks.drop_first())
    }
}

/// The texts of the chunks, one after the other.
pub open spec fn texts_of(chunks: Seq<Seq<u8>>) -> Seq<char>
    decreases chunks.len(),
{
    if chunks.len() == 0 {
        Seq::empty()
    } else {
        text_of(chunks[0]) + texts_of(chunks.drop_first())
    }
}

/// Decoding two valid UTF-8 sequences one after the other is decoding their
/// concatenation.
proof fn lemma_decode_concat(a: Seq<u8>, b: Seq<u8>)
    requires
        valid_utf8(a),
        valid_utf8(b),
    ensures
        valid_utf8(a + b),
        decode_utf8(a + b) == decode_utf8(a) + decode_utf8(b),
{
    valid_utf8_concat(a, b);
    let ab = a + b;
    if b.len() == 0 {
        is_char_boundary_start_end_of_seq(ab);
        assert(ab.len() == a.len());
    } else {
        assert(ab[a.len() as int] == b[0]);
        is_char_boundary_iff_not_is_continuation_byte(ab, a.len() as int);
    }
    decode_utf8_split(ab, a.len() as int);
    assert(ab.subrange(0, a.len() as int) =~= a);
    assert(ab.subrange(a.len() as int, ab.len() as int) =~= b);
}

/// Every byte that the command writes while output is not held back reaches
/// the real stream once, in the order written: what is shown is the text of
/// each released chunk, one after the other, and where those chunks are valid
/// UTF-8 it is exactly the text that their bytes, joined, encode.
pub proof fn lemma_output_relayed_in_order(suppress: Seq<bool>, chunks: Seq<Seq<u8>>)
    requires
        suppress.len() == chunks.len(),
    ensures
        relayed(suppress, chunks) == texts_of(released(suppress, chunks)),
        (forall|i: int| 0 <= i < chunks.len() && !suppress[i] ==> valid_utf8(#[trigger] chunks[i]))
            ==> valid_utf8(released(suppress, chunks).flatten()) && relayed(suppress, chunks)
            == decode_utf8(released(suppress, chunks).flatten()),
    decreases chunks.len(),
{
    if chunks.len() > 0 {
        let s = suppress.drop_first();
        let c = chunks.drop_first();
        lemma_output_relayed_in_order(s, c);
        let rest = released(s, c);
        if suppress[0] {
            assert(released(suppress, chunks) =~= rest);
            assert(relayed(suppress, chunks) =~= relayed(s, c));
        } else {
            let all = released(suppress, chunks);
            assert(all =~= seq![chunks[0]] + rest);
            assert(all[0] == chunks[0]);
            assert(all.drop_first() =~= rest);
            assert(all.first() == chunks[0]);
            if forall|i: int| 0 <= i < chunks.len() && !suppress[i] ==> valid_utf8(
                #[trigger] chunks[i],
            ) {
                assert forall|i: int| 0 <= i < c.len() && !s[i] implies valid_utf8(
                    #[trigger] c[i],
                ) by {
                    assert(c[i] == chunks[i + 1]);
                    assert(s[i] == suppress[i + 1]);
                }
                assert(valid_utf8(chunks[0]));
                lemma_decode_concat(chunks[0], rest.flatten());
            }
        }
    }
}

/// While output is held back nothing that the command writes is shown, however
/// much it writes.
pub proof fn lemma_suppressed_output_hidden(suppress: Seq<bool>, chunks: Seq<Seq<u8>>)
    requires
        suppress.len() == chunks.len(),
        forall|i: int| 0 <= i < suppress.len() ==> #[trigger] suppress[i],
    ensures
        relayed(suppress, chunks) == Seq::<char>::empty(),
    decreases chunks.len(),
{
    if chunks.len() > 0 {
        let s = suppress.drop_first();
        assert forall|i: int| 0 <= i < s.len() implies #[trigger] s[i] by {
            assert(s[i] == suppress[i + 1]);
        }
        lemma_suppressed_output_hidden(s, chunks.drop_first());
        assert(suppress[0]);
        assert(relayed(suppress, chunks) =~= Seq::<char>::empty());
    }
}

/// How many times the steps show the prompt with its header line.
pub open spec fn headers(steps: Seq<StepOf>) -> nat
    decreases steps.len(),
{
    if steps.len() == 0 {
        0
    } else {
        (if steps[0] == StepOf::Signal(SignalStep::Prompt) {
            1nat
        } else {
            0nat
        }) + headers(steps.drop_first())
    }
}

/// A run that starts with one event goes on from the state that the event
/// brings about.
proof fn lemma_run_first(c: Coordinator, e: Event, rest: Seq<Event>)
    ensures
        c.run(seq![e] + rest) == c.event_spec(e).0.run(rest),
        c.steps(seq![e] + rest) == seq![c.event_spec(e).1] + c.event_spec(e).0.steps(rest),
{
    let all = seq![e] + rest;
    assert(all[0] == e);
    assert(all.drop_first() =~= rest);
}

/// Every event keeps the coordinator well formed: output is never held
/// back outside an open round, whatever the workers see and in whatever
/// order.
pub proof fn lemma_run_preserves_wf(c: Coordinator, events: Seq<Event>)
    requires
        c.wf(),
    ensures
        c.run(events).wf(),
    decreases events.len(),
{
    if events.len() > 0 {
        lemma_run_preserves_wf(c.event_spec(events[0]).0, events.drop_first());
    }
}

/// Without an interrupt, nothing shows the prompt header.
proof fn lemma_no_header_without_interrupt(c: Coordinator, events: Seq<Event>)
    requires
        forall|i: int| 0 <= i < events.len() ==> events[i] != Event::Interrupt,
    ensures
        headers(c.steps(events)) == 0,
    decreases events.len(),
{
    if events.len() > 0 {
        let rest = events.drop_first();
        assert forall|i: int| 0 <= i < rest.len() implies rest[i] != Event::Interrupt by {
            assert(rest[i] == events[i + 1]);
        }
        lemma_no_header_without_interrupt(c.event_spec(events[0]).0, rest);
        lemma_run_first(c, events[0], rest);
        assert(events =~= seq![events[0]] + rest);
        let steps = c.steps(events);
        assert(steps.drop_first() =~= c.event_spec(events[0]).0.steps(rest));
    }
}

/// An interrupt shows the prompt header exactly once, however many answers
/// are rejected, prompts repeated and lines read after it.
pub proof fn lemma_one_header_per_interrupt(c: Coordinator, rest: Seq<Event>)
    requires
        c.wf(),
        c.phase == Phase::Idle,
        forall|i: int| 0 <= i < rest.len() ==> rest[i] != Event::Interrupt,
    ensures
        headers(c.steps(seq![Event::Interrupt] + rest)) == 1,
{
    let c1 = c.event_spec(Event::Interrupt).0;
    lemma_run_first(c, Event::Interrupt, rest);
    lemma_no_header_without_interrupt(c1, rest);
    let steps = c.steps(seq![Event::Interrupt] + rest);
    assert(steps[0] == StepOf::Signal(SignalStep::Prompt));
    assert(steps.drop_first() =~= c1.steps(rest));
}

/// Answering `Y` to the prompt delivers the interrupt to the command and
/// releases the output; the handler then reports termination and the
/// output stays released.
pub proof fn lemma_yes_terminates(c: Coordinator, line: Seq<char>)
    requires
        c.wf(),
        c.suppress,
        trimmed_of(line) == seq!['Y'],
    ensures
        c.steps(seq![Event::Line(line), Event::Poll]) == seq![
            StepOf::Input(InputStep::SignalChild),
            StepOf::Signal(SignalStep::Exit),
        ],
        c.run(seq![Event::Line(line)]).action == SigIntAction::Terminate,
        !c.run(seq![Event::Line(line)]).suppress,
        !c.run(seq![Event::Line(line), Event::Poll]).suppress,
        c.run(seq![Event::Line(line), Event::Poll]).phase == Phase::Terminated,
{
    let c1 = c.line_spec(line).0;
    lemma_run_first(c, Event::Line(line), seq![]);
    lemma_run_first(c, Event::Line(line), seq![Event::Poll]);
    lemma_run_first(c1, Event::Poll, seq![]);
    assert(seq![Event::Line(line)] + seq![Event::Poll] =~= seq![Event::Line(line), Event::Poll]);
    assert(seq![Event::Line(line)] + Seq::<Event>::empty() =~= seq![Event::Line(line)]);
    assert(seq![Event::Poll] + Seq::<Event>::empty() =~= seq![Event::Poll]);
    assert(c.steps(seq![Event::Line(line), Event::Poll]) =~= seq![
        StepOf::Input(InputStep::SignalChild),
        StepOf::Signal(SignalStep::Exit),
    ]);
}

/// Answering `n`, `N` or nothing records the decision to continue; the
/// handler then releases the output and closes the round, and the next line
/// goes to the command.
pub proof fn lemma_decline_continues(c: Coordinator, line: Seq<char>, next: Seq<char>)
    requires
        c.wf(),
        c.suppress,
        trimmed_of(line) == seq!['n'] || trimmed_of(line) == seq!['N'] || trimmed_of(line).len()
            == 0,
    ensures
        c.steps(seq![Event::Line(line), Event::Poll, Event::Line(next)]) == seq![
            StepOf::Input(InputStep::Resumed),
            StepOf::Signal(SignalStep::Resume),
            StepOf::Input(InputStep::Forward),
        ],
        c.run(seq![Event::Line(line)]).action == SigIntAction::Continue,
        !c.run(seq![Event::Line(line), Event::Poll]).suppress,
        c.run(seq![Event::Line(line), Event::Poll]).phase == Phase::Idle,
{
    let c1 = c.line_spec(line).0;
    let c2 = c1.poll_spec().0;
    assert(trimmed_of(line) != seq!['Y']) by {
        if trimmed_of(line).len() == 1 {
            assert(trimmed_of(line)[0] != 'Y');
        }
    }
    lemma_run_first(c, Event::Line(line), seq![]);
    lemma_run_first(c, Event::Line(line), seq![Event::Poll]);
    lemma_run_first(c, Event::Line(line), seq![Event::Poll, Event::Line(next)]);
    lemma_run_first(c1, Event::Poll, seq![]);
    lemma_run_first(c1, Event::Poll, seq![Event::Line(next)]);
    lemma_run_first(c2, Event::Line(next), seq![]);
    assert(seq![Event::Line(line)] + seq![Event::Poll] =~= seq![Event::Line(line), Event::Poll]);
    assert(seq![Event::Line(line)] + seq![Event::Poll, Event::Line(next)] =~= seq![
        Event::Line(line),
        Event::Poll,
        Event::Line(next),
    ]);
    assert(seq![Event::Poll] + seq![Event::Line(next)] =~= seq![Event::Poll, Event::Line(next)]);
    assert(seq![Event::Line(line)] + Seq::<Event>::empty() =~= seq![Event::Line(line)]);
    assert(seq![Event::Poll] + Seq::<Event>::empty() =~= seq![Event::Poll]);
    assert(seq![Event::Line(next)] + Seq::<Event>::empty() =~= seq![Event::Line(next)]);
    assert(c.steps(seq![Event::Line(line), Event::Poll, Event::Line(next)]) =~= seq![
        StepOf::Input(InputStep::Resumed),
        StepOf::Signal(SignalStep::Resume),
        StepOf::Input(InputStep::Forward),
    ]);
}

/// Any other answer leaves the output held back, is rejected, and the
/// handler shows the prompt again and awaits a new answer.
pub proof fn lemma_invalid_answer_reprompts(c: Coordinator, line: Seq<char>)
    requires
        c.wf(),
        c.suppress,
        trimmed_of(line) != seq!['Y'],
        trimmed_of(line) != seq!['n'],
        trimmed_of(line) != seq!['N'],
        trimmed_of(line).len() != 0,
    ensures
        c.steps(seq![Event::Line(line), Event::Poll]) == seq![
            StepOf::Input(InputStep::Rejected),
            StepOf::Signal(SignalStep::Reprompt),
        ],
        c.run(seq![Event::Line(line)]).suppress,
        c.run(seq![Event::Line(line), Event::Poll]).suppress,
        c.run(seq![Event::Line(line), Event::Poll]).confirming,
        c.run(seq![Event::Line(line), Event::Poll]).phase == Phase::Prompting,
{
    let c1 = c.line_spec(line).0;
    lemma_run_first(c, Event::Line(line), seq![]);
    lemma_run_first(c, Event::Line(line), seq![Event::Poll]);
    lemma_run_first(c1, Event::Poll, seq![]);
    assert(seq![Event::Line(line)] + seq![Event::Poll] =~= seq![Event::Line(line), Event::Poll]);
    assert(seq![Event::Line(line)] + Seq::<Event>::empty() =~= seq![Event::Line(line)]);
    assert(seq![Event::Poll] + Seq::<Event>::empty() =~= seq![Event::Poll]);
    assert(c.steps(seq![Event::Line(line), Event::Poll]) =~= seq![
        StepOf::Input(InputStep::Rejected),
        StepOf::Signal(SignalStep::Reprompt),
    ]);
}

} // verus!
