use vstd::prelude::*;
use crate::character::PlayerId;
use crate::constants::motions;
use crate::constants::spec_motions;
use crate::inputs::input_events::ButtonPress;
use crate::inputs::input_events::CommandMotion;
use crate::inputs::input_events::CommandMotionView;
use crate::inputs::input_events::CommandType;
use crate::inputs::input_events::FighterInputEvent;
use crate::inputs::input_events::lemma_select_grows;
use crate::inputs::input_events::try_patterns;
use crate::inputs::input_events::select_command;
use crate::inputs::input_events::spec_letters;
use crate::inputs::input_events::spec_try_patterns;
use crate::inputs::input_events::spec_rules;
use crate::inputs::input_events::spec_select;
use crate::text::push_decimal;
use crate::text::spec_decimal;
use crate::utils::countdown;

verus! {

/// How many motion codes a buffer remembers.
pub const HISTORY_LIMIT: usize = 20;

/// For how many frames a recognized command can be acted upon.
pub const COMMAND_WINDOW: u8 = 5;

/// For how many frames the table is left alone once a command was consumed.
pub const CONSUME_LOCKOUT: u8 = 3;

/// The motion codes of `motions` written one after the other, oldest first.
pub open spec fn spec_history_text(motions: Seq<u8>) -> Seq<char>
    decreases motions.len(),
{
    if motions.len() == 0 {
        Seq::empty()
    } else {
        spec_history_text(motions.drop_last()) + spec_decimal(motions.last())
    }
}

/// A player's recent directions, and the command that they spell.
#[derive(Debug)]
pub struct FighterInputBuffer {
    /// The last directions, oldest first, in numpad notation.
    pub motions: Vec<u8>,
    pub player_id: PlayerId,
    /// The priority of the recognized command; 0 while there is none.
    pub command_priority: u8,
    /// For how many more frames the recognized command stays.
    pub command_duration: u8,
    /// The recognized command, until it is consumed or runs out.
    pub command_type: Option<CommandType>,
    pub current_motion: u8,
    pub current_press: ButtonPress,
    pub previous_motion: u8,
    /// For how many more frames the table is left alone.
    pub command_lockout: u8,
}

/// An input buffer as plain values.
pub struct FighterInputBufferView {
    pub motions: Seq<u8>,
    pub player_id: PlayerId,
    pub command_priority: u8,
    pub command_duration: u8,
    pub command_type: Option<CommandType>,
    pub current_motion: u8,
    pub current_press: ButtonPress,
    pub previous_motion: u8,
    pub command_lockout: u8,
}

impl View for FighterInputBuffer {
    type V = FighterInputBufferView;

    open spec fn view(&self) -> FighterInputBufferView {
        FighterInputBufferView {
            motions: self.motions@,
            player_id: self.player_id,
            command_priority: self.command_priority,
            command_duration: self.command_duration,
            command_type: self.command_type,
            current_motion: self.current_motion,
            current_press: self.current_press,
            previous_motion: self.previous_motion,
            command_lockout: self.command_lockout,
        }
    }
}

impl FighterInputBufferView {
    /// The history is capped, a command lasts only while its duration runs,
    /// and the priority is that of the command.
    pub open spec fn wf(self) -> bool {
        &&& self.motions.len() <= HISTORY_LIMIT
        &&& self.command_duration == 0 ==> self.command_type is None
        &&& self.command_type is None ==> self.command_priority == 0
    }

    /// A fresh buffer: no history, no command, the stick at rest.
    pub open spec fn spec_new(player_id: PlayerId) -> FighterInputBufferView {
        FighterInputBufferView {
            motions: Seq::empty(),
            player_id,
            command_priority: 0,
            command_duration: 0,
            command_type: None,
            current_motion: 5,
            current_press: ButtonPress { value: 0 },
            previous_motion: 5,
            command_lockout: 0,
        }
    }

    /// The buffer once it has heard `event`: the direction joins the history,
    /// and the oldest leaves if that makes more than the limit.
    pub open spec fn spec_record(self, event: FighterInputEvent) -> FighterInputBufferView {
        let longer = self.motions.push(event.motion);
        FighterInputBufferView {
            motions: if longer.len() > HISTORY_LIMIT {
                longer.drop_first()
            } else {
                longer
            },
            previous_motion: self.current_motion,
            current_motion: event.motion,
            current_press: event.button_press,
            ..self
        }
    }

    /// The buffer one frame older: both timers step down, and a command whose
    /// duration has run out is dropped.
    pub open spec fn spec_tick(self) -> FighterInputBufferView {
        let duration = countdown(self.command_duration);
        FighterInputBufferView {
            command_duration: duration,
            command_lockout: countdown(self.command_lockout),
            command_type: if duration == 0 {
                None
            } else {
                self.command_type
            },
            command_priority: if duration == 0 {
                0
            } else {
                self.command_priority
            },
            ..self
        }
    }

    /// The buffer once `rules` were tried on its history, given which of
    /// their patterns matched: nothing changes during a lockout or when no
    /// rule is taken; else the rule's command is recognized afresh.
    pub open spec fn spec_recognize(
        self,
        rules: Seq<CommandMotionView>,
        hits: Seq<bool>,
    ) -> FighterInputBufferView {
        let best = spec_select(rules, hits, self.command_priority);
        if self.command_lockout == 0 && best.1 is Some {
            FighterInputBufferView {
                command_type: best.1,
                command_priority: best.0,
                command_duration: COMMAND_WINDOW,
                ..self
            }
        } else {
            self
        }
    }

    /// The buffer once `rules` were tried on its history.
    pub open spec fn spec_extract(self, rules: Seq<CommandMotionView>) -> FighterInputBufferView {
        self.spec_recognize(rules, spec_try_patterns(rules, spec_history_text(self.motions)))
    }

    /// The buffer after one frame in which `event` arrived.
    pub open spec fn spec_update(
        self,
        event: FighterInputEvent,
        rules: Seq<CommandMotionView>,
    ) -> FighterInputBufferView {
        let heard = if event.player_id == self.player_id {
            self.spec_record(event)
        } else {
            self
        };
        heard.spec_tick().spec_extract(rules)
    }

    /// The buffer once its command was acted upon.
    pub open spec fn spec_consume(self) -> FighterInputBufferView {
        FighterInputBufferView {
            command_type: None,
            command_priority: 0,
            command_lockout: CONSUME_LOCKOUT,
            command_duration: 0,
            ..self
        }
    }
}

impl FighterInputBuffer {
    pub fn new(player_id: PlayerId) -> (buffer: Self)
        ensures
            buffer@ == FighterInputBufferView::spec_new(player_id),
            buffer@.wf(),
    {
        FighterInputBuffer {
            motions: Vec::new(),
            player_id,
            command_priority: 0,
            command_duration: 0,
            command_type: None,
            current_motion: 5,
            current_press: ButtonPress::new(0),
            previous_motion: 5,
            command_lockout: 0,
        }
    }

    /// Takes in the input of one frame: hears `event` if it is this player's,
    /// lets a frame pass, and tries the command table on the history.
    pub fn update(&mut self, event: &FighterInputEvent)
        ensures
            final(self)@ == old(self)@.spec_update(*event, spec_motions()),
            old(self)@.wf() ==> final(self)@.wf(),
    {
        if event.player_id == self.player_id {
            self.record(event);
        }
        self.tick();
        let table = motions();
        self.extract_special_motions(&table);
        proof {
            if old(self)@.wf() {
                lemma_update_keeps_wf(old(self)@, *event, spec_motions());
            }
        }
    }

    /// The held direction and buttons as text, such as `6AB`.
    pub fn current_input(&self) -> (text: String)
        ensures
            text@ == spec_decimal(self.current_motion) + spec_letters(self.current_press.value, 8),
    {
        let mut text = String::new();
        push_decimal(&mut text, self.current_motion);
        let letters = self.current_press.to_string();
        text.append(letters.as_str());
        text
    }

    /// Hears `event`: its direction joins the history.
    fn record(&mut self, event: &FighterInputEvent)
        ensures
            final(self)@ == old(self)@.spec_record(*event),
    {
        self.motions.push(event.motion);
        if self.motions.len() > HISTORY_LIMIT {
            self.motions.remove(0);
        }
        self.previous_motion = self.current_motion;
        self.current_motion = event.motion;
        self.current_press = event.button_press;
        assert(self.motions@ =~= old(self)@.spec_record(*event).motions);
    }

    /// Lets one frame pass.
    fn tick(&mut self)
        ensures
            final(self)@ == old(self)@.spec_tick(),
    {
        self.command_duration = countdown(self.command_duration);
        self.command_lockout = countdown(self.command_lockout);
        if self.command_duration == 0 {
            self.command_type = None;
            self.command_priority = 0;
        }
    }

    /// Writes the history as text, oldest direction first.
    pub fn motion_to_string(&self) -> (text: String)
        ensures
            text@ == spec_history_text(self.motions@),
    {
        let mut motions_string = String::new();
        let mut i: usize = 0;
        while i < self.motions.len()
            invariant
                i <= self.motions.len(),
                motions_string@ == spec_history_text(self.motions@.take(i as int)),
            decreases self.motions.len() - i,
        {
            proof {
                let upto = self.motions@.take(i + 1);
                assert(upto.drop_last() =~= self.motions@.take(i as int));
                assert(upto.last() == self.motions@[i as int]);
            }
            push_decimal(&mut motions_string, self.motions[i]);
            i += 1;
        }
        assert(self.motions@.take(i as int) =~= self.motions@);
        motions_string
    }

    /// Drops the command that was acted upon, and keeps the table from
    /// recognizing it again at once.
    pub fn consume_motion(&mut self)
        ensures
            final(self)@ == old(self)@.spec_consume(),
            old(self)@.wf() ==> final(self)@.wf(),
    {
        self.command_type = None;
        self.command_priority = 0;
        self.command_lockout = CONSUME_LOCKOUT;
        self.command_duration = 0;
    }

    /// Takes the outcome of one pass over `table` into the buffer, given
    /// which of its patterns matched the history.
    pub fn recognize(&mut self, table: &Vec<CommandMotion>, hits: &Vec<bool>)
        requires
            hits.len() == table.len(),
        ensures
            final(self)@ == old(self)@.spec_recognize(spec_rules(table@), hits@),
    {
        if self.command_lockout == 0 {
            let best = select_command(table, hits, self.command_priority);
            if let Some(command) = best.1 {
                self.command_type = Some(command);
                self.command_priority = best.0;
                self.command_duration = COMMAND_WINDOW;
            }
        }
    }

    /// Tries `table` on the history, unless a lockout runs.
    pub fn extract_special_motions(&mut self, table: &Vec<CommandMotion>)
        ensures
            final(self)@ == old(self)@.spec_extract(spec_rules(table@)),
    {
        if self.command_lockout == 0 {
            let motion_string = self.motion_to_string();
            let hits = try_patterns(table, motion_string.as_str());
            self.recognize(table, &hits);
        }
    }
}

/// The history is the tail of what was heard: hearing an event puts its
/// direction last, drops the oldest direction exactly if the history was
/// full, and makes the direction the current one.
pub proof fn lemma_record(buffer: FighterInputBufferView, event: FighterInputEvent)
    requires
        buffer.wf(),
    ensures
        ({
            let heard = buffer.spec_record(event);
            let kept = if buffer.motions.len() == HISTORY_LIMIT {
                buffer.motions.drop_first()
            } else {
                buffer.motions
            };
            &&& heard.wf()
            &&& heard.motions == kept.push(event.motion)
            &&& heard.motions.last() == heard.current_motion
            &&& heard.current_motion == event.motion
            &&& heard.previous_motion == buffer.current_motion
        }),
{
    let heard = buffer.spec_record(event);
    let kept = if buffer.motions.len() == HISTORY_LIMIT {
        buffer.motions.drop_first()
    } else {
        buffer.motions
    };
    assert(heard.motions =~= kept.push(event.motion));
}

/// A frame keeps a buffer well formed, whatever arrives and whatever the
/// table holds.
pub proof fn lemma_update_keeps_wf(
    buffer: FighterInputBufferView,
    event: FighterInputEvent,
    rules: Seq<CommandMotionView>,
)
    requires
        buffer.wf(),
    ensures
        buffer.spec_update(event, rules).wf(),
{
    let heard = if event.player_id == buffer.player_id {
        buffer.spec_record(event)
    } else {
        buffer
    };
    let ticked = heard.spec_tick();
    lemma_select_grows(
        rules,
        spec_try_patterns(rules, spec_history_text(ticked.motions)),
        ticked.command_priority,
    );
}

/// Once a command is consumed, the table is tried three times in vain,
/// whatever the players press and whatever the history matches: at once, and
/// in the two frames that follow. The fourth time, in the third frame,
/// matching resumes: the table is tried on the history as it then stands,
/// against priority 0.
pub proof fn lemma_lockout(
    buffer: FighterInputBufferView,
    first: FighterInputEvent,
    second: FighterInputEvent,
    third: FighterInputEvent,
    rules: Seq<CommandMotionView>,
)
    ensures
        ({
            let consumed = buffer.spec_consume();
            let at_once = consumed.spec_extract(rules);
            let one = consumed.spec_update(first, rules);
            let two = one.spec_update(second, rules);
            let three = two.spec_update(third, rules);
            let heard = if third.player_id == two.player_id {
                two.spec_record(third)
            } else {
                two
            };
            let best = spec_select(
                rules,
                spec_try_patterns(rules, spec_history_text(heard.motions)),
                0,
            );
            &&& consumed.command_type is None
            &&& consumed.command_lockout == CONSUME_LOCKOUT
            &&& at_once == consumed
            &&& one.command_type is None
            &&& one.command_lockout == 2
            &&& two.command_type is None
            &&& two.command_lockout == 1
            &&& three.command_lockout == 0
            &&& three.command_type == best.1
            &&& best.1 is Some ==> three.command_duration == COMMAND_WINDOW
                && three.command_priority == best.0
        }),
{
}

/// A recognized command that is not replaced stays for the frames of its
/// window and is gone when the window ends: after a frame in which the table
/// takes no rule, the duration is one less, and the command is there exactly
/// if frames remain.
pub proof fn lemma_command_expires(
    buffer: FighterInputBufferView,
    event: FighterInputEvent,
    rules: Seq<CommandMotionView>,
)
    requires
        buffer.wf(),
        ({
            let heard = if event.player_id == buffer.player_id {
                buffer.spec_record(event)
            } else {
                buffer
            };
            let ticked = heard.spec_tick();
            ticked.command_lockout > 0 || spec_select(
                rules,
                spec_try_patterns(rules, spec_history_text(ticked.motions)),
                ticked.command_priority,
            ).1 is None
        }),
    ensures
        ({
            let next = buffer.spec_update(event, rules);
            &&& next.command_duration == countdown(buffer.command_duration)
            &&& next.command_duration > 0 ==> next.command_type == buffer.command_type
            &&& next.command_duration == 0 ==> next.command_type is None
        }),
{
}

} // verus!
