use vstd::prelude::*;
use crate::character::PlayerId;
use crate::inputs::mapping::InputActionsPressed;
use crate::pattern::PatternError;
use crate::pattern::is_match;
use crate::pattern::regex_compiles;
use crate::pattern::spec_is_match;
use crate::pattern::validate;
use crate::text::push_char;

verus! {

/// The multi-frame commands that a motion history can spell.
#[allow(non_camel_case_types)]
#[derive(Debug, Clone, Copy, PartialEq, Eq, Structural)]
pub enum CommandType {
    FIREBALL,
    R_FIREBALL,
    DP,
    R_DP,
    HALF_CIRCLE_BACK,
    HALF_CIRCLE_FORWARD,
    DASH,
    BACK_DASH,
    INVITE_HELL,
}

/// The buttons held in one frame, one bit each: A is bit 0, H is bit 7.
#[derive(Debug, Clone, Copy, PartialEq, Eq, Structural)]
pub struct ButtonPress {
    pub value: u8,
}

/// Whether bit `position` of `value` is set.
pub open spec fn spec_bit(value: u8, position: u8) -> bool
    recommends
        position < 8,
{
    value & (1u8 << position) != 0
}

/// The letter that names the button of bit `position`.
pub open spec fn spec_button_letter(position: int) -> char
    recommends
        0 <= position < 8,
{
    if position == 0 {
        'A'
    } else if position == 1 {
        'B'
    } else if position == 2 {
        'C'
    } else if position == 3 {
        'D'
    } else if position == 4 {
        'E'
    } else if position == 5 {
        'F'
    } else if position == 6 {
        'G'
    } else {
        'H'
    }
}

/// The letters of the buttons held among the first `count` bits, in
/// ascending order.
pub open spec fn spec_letters(value: u8, count: nat) -> Seq<char>
    recommends
        count <= 8,
    decreases count,
{
    if count == 0 {
        Seq::empty()
    } else {
        let below = spec_letters(value, (count - 1) as nat);
        if spec_bit(value, (count - 1) as u8) {
            below.push(spec_button_letter(count - 1))
        } else {
            below
        }
    }
}

/// The bit of the button that `button` names, if it names one.
pub open spec fn spec_button_bit(button: char) -> Option<u8> {
    if button == 'A' {
        Some(0u8)
    } else if button == 'B' {
        Some(1u8)
    } else if button == 'C' {
        Some(2u8)
    } else if button == 'D' {
        Some(3u8)
    } else if button == 'E' {
        Some(4u8)
    } else if button == 'F' {
        Some(5u8)
    } else if button == 'G' {
        Some(6u8)
    } else if button == 'H' {
        Some(7u8)
    } else {
        None
    }
}

/// The byte that holds `pressed`'s eight buttons.
pub open spec fn spec_button_byte(pressed: InputActionsPressed) -> u8 {
    (if pressed.a { 0x01u8 } else { 0u8 })
        | (if pressed.b { 0x02u8 } else { 0u8 })
        | (if pressed.c { 0x04u8 } else { 0u8 })
        | (if pressed.d { 0x08u8 } else { 0u8 })
        | (if pressed.e { 0x10u8 } else { 0u8 })
        | (if pressed.f { 0x20u8 } else { 0u8 })
        | (if pressed.macro_1 { 0x40u8 } else { 0u8 })
        | (if pressed.macro_2 { 0x80u8 } else { 0u8 })
}

impl ButtonPress {
    pub fn new(value: u8) -> (press: Self)
        ensures
            press.value == value,
    {
        ButtonPress { value }
    }

    /// Packs the eight buttons of `pressed` into one byte.
    pub fn from_pressed(pressed: &InputActionsPressed) -> (press: Self)
        ensures
            press.value == spec_button_byte(*pressed),
    {
        let mut value: u8 = 0;
        if pressed.a {
            value = value | 0x01;
        }
        if pressed.b {
            value = value | 0x02;
        }
        if pressed.c {
            value = value | 0x04;
        }
        if pressed.d {
            value = value | 0x08;
        }
        if pressed.e {
            value = value | 0x10;
        }
        if pressed.f {
            value = value | 0x20;
        }
        if pressed.macro_1 {
            value = value | 0x40;
        }
        if pressed.macro_2 {
            value = value | 0x80;
        }
        assert(forall|v: u8| #![auto] v | 0u8 == v) by (bit_vector);
        assert(0u8 | 0x01u8 == 0x01u8) by (bit_vector);
        ButtonPress { value }
    }

    /// Tells whether any button is held.
    pub fn any_pressed(&self) -> (any: bool)
        ensures
            any == (self.value != 0),
    {
        self.value != 0
    }

    /// Spells the held buttons as letters, A first.
    pub fn to_string(&self) -> (letters: String)
        ensures
            letters@ == spec_letters(self.value, 8),
    {
        let mut button_string = String::new();
        let mut position: u8 = 0;
        while position < 8
            invariant
                position <= 8,
                button_string@ == spec_letters(self.value, position as nat),
            decreases 8 - position,
        {
            if self.is_bit_set(position) {
                push_char(&mut button_string, button_letter(position));
            }
            position += 1;
        }
        button_string
    }

    /// Tells whether the button that `button` names is held. A character
    /// that names no button is never held.
    pub fn is_button_pressed(&self, button: char) -> (held: bool)
        ensures
            held == match spec_button_bit(button) {
                Some(position) => spec_bit(self.value, position),
                None => false,
            },
    {
        let shift: u8 = match button {
            'A' => 0,
            'B' => 1,
            'C' => 2,
            'D' => 3,
            'E' => 4,
            'F' => 5,
            'G' => 6,
            'H' => 7,
            _ => {
                return false;
            },
        };
        self.is_bit_set(shift)
    }

    /// Tells whether bit `position` is set.
    pub fn is_bit_set(&self, position: u8) -> (set: bool)
        requires
            position < 8,
        ensures
            set == spec_bit(self.value, position),
    {
        (self.value & (1u8 << position)) != 0
    }
}

/// Names the button of bit `position`.
pub fn button_letter(position: u8) -> (letter: char)
    requires
        position < 8,
    ensures
        letter == spec_button_letter(position as int),
{
    match position {
        0 => 'A',
        1 => 'B',
        2 => 'C',
        3 => 'D',
        4 => 'E',
        5 => 'F',
        6 => 'G',
        _ => 'H',
    }
}

/// Each button of `pressed` is the bit of its letter in the byte that holds
/// them: `a` is bit 0, and so on up to `macro_2`, which is bit 7.
pub proof fn lemma_button_bits(pressed: InputActionsPressed)
    ensures
        spec_bit(spec_button_byte(pressed), 0) == pressed.a,
        spec_bit(spec_button_byte(pressed), 1) == pressed.b,
        spec_bit(spec_button_byte(pressed), 2) == pressed.c,
        spec_bit(spec_button_byte(pressed), 3) == pressed.d,
        spec_bit(spec_button_byte(pressed), 4) == pressed.e,
        spec_bit(spec_button_byte(pressed), 5) == pressed.f,
        spec_bit(spec_button_byte(pressed), 6) == pressed.macro_1,
        spec_bit(spec_button_byte(pressed), 7) == pressed.macro_2,
{
    let a: u8 = if pressed.a { 0x01 } else { 0 };
    let b: u8 = if pressed.b { 0x02 } else { 0 };
    let c: u8 = if pressed.c { 0x04 } else { 0 };
    let d: u8 = if pressed.d { 0x08 } else { 0 };
    let e: u8 = if pressed.e { 0x10 } else { 0 };
    let f: u8 = if pressed.f { 0x20 } else { 0 };
    let g: u8 = if pressed.macro_1 { 0x40 } else { 0 };
    let h: u8 = if pressed.macro_2 { 0x80 } else { 0 };
    let byte = a | b | c | d | e | f | g | h;
    assert(byte == spec_button_byte(pressed));
    assert((byte & (1u8 << 0u8) != 0) == (a != 0) && (byte & (1u8 << 1u8) != 0) == (b != 0) && (
    byte & (1u8 << 2u8) != 0) == (c != 0) && (byte & (1u8 << 3u8) != 0) == (d != 0) && (byte & (1u8
        << 4u8) != 0) == (e != 0) && (byte & (1u8 << 5u8) != 0) == (f != 0) && (byte & (1u8 << 6u8)
        != 0) == (g != 0) && (byte & (1u8 << 7u8) != 0) == (h != 0)) by (bit_vector)
        requires
            byte == a | b | c | d | e | f | g | h,
            a == 0x01u8 || a == 0u8,
            b == 0x02u8 || b == 0u8,
            c == 0x04u8 || c == 0u8,
            d == 0x08u8 || d == 0u8,
            e == 0x10u8 || e == 0u8,
            f == 0x20u8 || f == 0u8,
            g == 0x40u8 || g == 0u8,
            h == 0x80u8 || h == 0u8,
    ;
}

/// The letters of a byte are those of its bits: a button's letter is among
/// them exactly if the button's bit is set.
pub proof fn lemma_letters(value: u8, position: u8)
    requires
        position < 8,
    ensures
        spec_letters(value, 8).contains(spec_button_letter(position as int)) == spec_bit(
            value,
            position,
        ),
{
    lemma_letters_below(value, 8, position);
}

/// Among the letters of the first `count` bits a button's letter occurs
/// exactly if its bit is one of them and is set.
pub proof fn lemma_letters_below(value: u8, count: nat, position: u8)
    requires
        count <= 8,
        position < 8,
    ensures
        spec_letters(value, count).contains(spec_button_letter(position as int)) == (position
            < count && spec_bit(value, position)),
    decreases count,
{
    let letter = spec_button_letter(position as int);
    if count > 0 {
        let below = spec_letters(value, (count - 1) as nat);
        lemma_letters_below(value, (count - 1) as nat, position);
        let top = spec_button_letter(count - 1);
        if spec_bit(value, (count - 1) as u8) {
            let all = below.push(top);
            if all.contains(letter) {
                let i = choose|i: int| 0 <= i < all.len() && all[i] == letter;
                if i < below.len() {
                    assert(below[i] == letter);
                } else {
                    assert(top == letter);
                }
            }
            if below.contains(letter) {
                let i = choose|i: int| 0 <= i < below.len() && below[i] == letter;
                assert(all[i] == letter);
            }
            if position == count - 1 {
                assert(all[below.len() as int] == letter);
            }
        }
    }
}

/// What one player presses in one frame.
#[derive(Debug, Clone, Copy, PartialEq, Eq, Structural)]
pub struct FighterInputEvent {
    pub player_id: PlayerId,
    /// Direction of the input, in numpad notation.
    pub motion: u8,
    /// The buttons held, as a single byte.
    pub button_press: ButtonPress,
    /// Any command found in the input event.
    pub special_motion: Option<CommandType>,
    /// How long the command stays.
    pub special_motion_duration: u8,
}

impl FighterInputEvent {
    /// An event that carries a direction and buttons, and no command.
    pub fn new(motion: u8, player_id: PlayerId, button_press: ButtonPress) -> (event: Self)
        ensures
            event == (FighterInputEvent {
                player_id,
                motion,
                button_press,
                special_motion: None,
                special_motion_duration: 0,
            }),
    {
        FighterInputEvent {
            motion,
            player_id,
            button_press,
            special_motion_duration: 0,
            special_motion: None,
        }
    }
}

/// The numpad code of the direction held, for a character whose forward is
/// `facing_vector` (1 toward positive x, -1 toward negative x).
pub open spec fn spec_motion(pressed: InputActionsPressed, facing_vector: int) -> u8 {
    let h_axis = (if pressed.right { facing_vector } else { 0 })
        - (if pressed.left { facing_vector } else { 0 });
    let v_axis: int = if pressed.up {
        1
    } else if pressed.down {
        -1
    } else {
        0
    };
    if h_axis == 0 {
        if v_axis == 1 {
            8u8
        } else if v_axis == -1 {
            2u8
        } else {
            5u8
        }
    } else if h_axis == -1 {
        if v_axis == 1 {
            7u8
        } else if v_axis == 0 {
            4u8
        } else {
            1u8
        }
    } else if h_axis == 1 {
        if v_axis == 1 {
            9u8
        } else if v_axis == 0 {
            6u8
        } else {
            3u8
        }
    } else {
        5u8
    }
}

/// Encodes the held directions as a numpad code: left and right cancel,
/// up wins over down, and forward is where the character faces.
pub fn motion_from_pressed(pressed: &InputActionsPressed, facing_vector: i32) -> (motion: u8)
    ensures
        motion == spec_motion(*pressed, facing_vector as int),
        1 <= motion <= 9,
{
    let mut h_axis: i64 = 0;
    let mut v_axis: i64 = 0;
    if pressed.left {
        h_axis = h_axis - facing_vector as i64;
    }
    if pressed.right {
        h_axis = h_axis + facing_vector as i64;
    }
    if pressed.up {
        v_axis = 1;
    }
    if pressed.down {
        if v_axis == 0 {
            v_axis = -1;
        }
    }
    let mut motion: u8 = 5;
    if h_axis == 0 {
        if v_axis == 1 {
            motion = 8;
        }
        if v_axis == -1 {
            motion = 2;
        }
    }
    if h_axis == -1 {
        if v_axis == 1 {
            motion = 7;
        }
        if v_axis == 0 {
            motion = 4;
        }
        if v_axis == -1 {
            motion = 1;
        }
    }
    if h_axis == 1 {
        if v_axis == 1 {
            motion = 9;
        }
        if v_axis == 0 {
            motion = 6;
        }
        if v_axis == -1 {
            motion = 3;
        }
    }
    motion
}

/// The event of one frame for `player_id`, from what is held.
pub fn write_fighter_inputs(
    player_id: PlayerId,
    pressed: &InputActionsPressed,
    facing_vector: i32,
) -> (event: FighterInputEvent)
    ensures
        event == (FighterInputEvent {
            player_id,
            motion: spec_motion(*pressed, facing_vector as int),
            button_press: ButtonPress { value: spec_button_byte(*pressed) },
            special_motion: None,
            special_motion_duration: 0,
        }),
{
    let motion = motion_from_pressed(pressed, facing_vector);
    let button_press = ButtonPress::from_pressed(pressed);
    FighterInputEvent::new(motion, player_id, button_press)
}

/// One rule of the command table: a motion history that `regular_expression`
/// matches spells `command`, if `priority` beats what is already recognized.
#[derive(Debug)]
pub struct CommandMotion {
    pub priority: u8,
    pub regular_expression: String,
    pub command: CommandType,
}

/// A rule of the command table as plain values.
pub struct CommandMotionView {
    pub priority: u8,
    pub regular_expression: Seq<char>,
    pub command: CommandType,
}

impl View for CommandMotion {
    type V = CommandMotionView;

    open spec fn view(&self) -> CommandMotionView {
        CommandMotionView {
            priority: self.priority,
            regular_expression: self.regular_expression@,
            command: self.command,
        }
    }
}

impl CommandMotionView {
    /// Whether this rule applies to the history `buffer_string`, for a buffer
    /// that has already recognized a command of `buffer_priority`.
    pub open spec fn check(self, buffer_string: Seq<char>, buffer_priority: u8) -> bool {
        spec_is_match(self.regular_expression, buffer_string) && self.priority > buffer_priority
    }
}

impl CommandMotion {
    pub fn new(priority: u8, regular_expression: &str, command: CommandType) -> (rule: Self)
        ensures
            rule@ == (CommandMotionView {
                priority,
                regular_expression: regular_expression@,
                command,
            }),
    {
        CommandMotion {
            priority,
            regular_expression: String::from_str(regular_expression),
            command,
        }
    }

    /// Tells whether this rule applies: its pattern matches somewhere in
    /// `buffer_string`, and its priority exceeds `buffer_priority`.
    pub fn check(&self, buffer_string: &str, buffer_priority: u8) -> (applies: bool)
        ensures
            applies == self@.check(buffer_string@, buffer_priority),
    {
        is_match(self.regular_expression.as_str(), buffer_string) && self.priority
            > buffer_priority
    }

    /// Accepts the rule if its pattern is a regular expression.
    pub fn validate(&self) -> (checked: Result<(), PatternError>)
        ensures
            checked is Ok <==> regex_compiles(self@.regular_expression),
            checked matches Err(error) ==> error.pattern@ == self@.regular_expression,
    {
        validate(self.regular_expression.as_str())
    }
}

impl Clone for CommandMotion {
    fn clone(&self) -> (copy: Self)
        ensures
            copy@ == self@,
    {
        CommandMotion {
            priority: self.priority,
            regular_expression: self.regular_expression.clone(),
            command: self.command,
        }
    }
}

} // verus!

verus! {

/// The rules of a table as plain values.
pub open spec fn spec_rules(table: Seq<CommandMotion>) -> Seq<CommandMotionView> {
    table.map_values(|rule: CommandMotion| rule@)
}

/// For each rule of `rules`, whether its pattern matches somewhere in `text`.
pub open spec fn spec_try_patterns(rules: Seq<CommandMotionView>, text: Seq<char>) -> Seq<bool> {
    Seq::new(rules.len(), |i: int| spec_is_match(rules[i].regular_expression, text))
}

/// One pass over the table. `hits` tells which patterns matched; `priority`
/// is what the buffer has already recognized. A rule is taken when it matched
/// and its priority exceeds the best so far, so a later rule overwrites an
/// earlier one of lower priority, and of equal rules the first stays.
/// The result is the best priority and, if a rule was taken, its command.
pub open spec fn spec_select(rules: Seq<CommandMotionView>, hits: Seq<bool>, priority: u8) -> (
    u8,
    Option<CommandType>,
)
    recommends
        hits.len() == rules.len(),
    decreases rules.len(),
{
    if rules.len() == 0 {
        (priority, None)
    } else {
        let before = spec_select(rules.drop_last(), hits.drop_last(), priority);
        let rule = rules.last();
        if hits.last() && rule.priority > before.0 {
            (rule.priority, Some(rule.command))
        } else {
            before
        }
    }
}

/// Tries every pattern of `table` on `text`.
pub fn try_patterns(table: &Vec<CommandMotion>, text: &str) -> (hits: Vec<bool>)
    ensures
        hits@ == spec_try_patterns(spec_rules(table@), text@),
{
    let mut hits: Vec<bool> = Vec::new();
    let mut i: usize = 0;
    while i < table.len()
        invariant
            i <= table.len(),
            hits@ == spec_try_patterns(spec_rules(table@), text@).take(i as int),
        decreases table.len() - i,
    {
        let found = is_match(table[i].regular_expression.as_str(), text);
        hits.push(found);
        i += 1;
        assert(hits@ =~= spec_try_patterns(spec_rules(table@), text@).take(i as int));
    }
    assert(hits@ =~= spec_try_patterns(spec_rules(table@), text@));
    hits
}

/// Picks the command of one pass over `table`, given which patterns matched.
pub fn select_command(table: &Vec<CommandMotion>, hits: &Vec<bool>, priority: u8) -> (best: (
    u8,
    Option<CommandType>,
))
    requires
        hits.len() == table.len(),
    ensures
        best == spec_select(spec_rules(table@), hits@, priority),
{
    let mut best_priority: u8 = priority;
    let mut best_command: Option<CommandType> = None;
    let mut i: usize = 0;
    while i < table.len()
        invariant
            i <= table.len(),
            hits.len() == table.len(),
            (best_priority, best_command) == spec_select(
                spec_rules(table@).take(i as int),
                hits@.take(i as int),
                priority,
            ),
        decreases table.len() - i,
    {
        proof {
            let rules = spec_rules(table@);
            assert(rules.take(i + 1).drop_last() =~= rules.take(i as int));
            assert(hits@.take(i + 1).drop_last() =~= hits@.take(i as int));
            assert(rules.take(i + 1).last() == table@[i as int]@);
        }
        if hits[i] && table[i].priority > best_priority {
            best_priority = table[i].priority;
            best_command = Some(table[i].command);
        }
        i += 1;
    }
    proof {
        assert(spec_rules(table@).take(i as int) =~= spec_rules(table@));
        assert(hits@.take(i as int) =~= hits@);
    }
    (best_priority, best_command)
}

/// A pass over the table never lowers the priority it started with.
pub proof fn lemma_select_grows(rules: Seq<CommandMotionView>, hits: Seq<bool>, priority: u8)
    requires
        hits.len() == rules.len(),
    ensures
        spec_select(rules, hits, priority).0 >= priority,
        spec_select(rules, hits, priority).1 is None ==> spec_select(rules, hits, priority).0
            == priority,
        spec_select(rules, hits, priority).1 is Some ==> spec_select(rules, hits, priority).0
            > priority,
    decreases rules.len(),
{
    if rules.len() > 0 {
        lemma_select_grows(rules.drop_last(), hits.drop_last(), priority);
    }
}

/// A pass finds nothing exactly when no rule that matched beats the
/// priority it started with.
pub proof fn lemma_select_none(rules: Seq<CommandMotionView>, hits: Seq<bool>, priority: u8)
    requires
        hits.len() == rules.len(),
    ensures
        spec_select(rules, hits, priority).1 is None <==> forall|i: int|
            0 <= i < rules.len() ==> !(#[trigger] hits[i] && rules[i].priority > priority),
    decreases rules.len(),
{
    if rules.len() > 0 {
        let front = rules.drop_last();
        let front_hits = hits.drop_last();
        lemma_select_none(front, front_hits, priority);
        lemma_select_grows(front, front_hits, priority);
        let last = rules.len() - 1;
        assert(forall|i: int| 0 <= i < last ==> front[i] == rules[i] && front_hits[i] == hits[i]);
        if spec_select(rules, hits, priority).1 is None {
            assert forall|i: int| 0 <= i < rules.len() implies !(#[trigger] hits[i]
                && rules[i].priority > priority) by {
                if i < last {
                    assert(front_hits[i] == hits[i]);
                }
            }
        } else {
            if spec_select(front, front_hits, priority).1 is None {
                assert(hits[last] && rules[last].priority > priority);
            } else {
                let i = choose|i: int|
                    0 <= i < front.len() && (#[trigger] front_hits[i] && front[i].priority
                        > priority);
                assert(hits[i] && rules[i].priority > priority);
            }
        }
    }
}

/// The rule that a pass takes is the best that matched: it matched, it beats
/// the priority the pass started with, no rule that matched has a higher
/// priority, and no earlier rule that matched has the same.
pub proof fn lemma_select_highest(rules: Seq<CommandMotionView>, hits: Seq<bool>, priority: u8)
    requires
        hits.len() == rules.len(),
        spec_select(rules, hits, priority).1 is Some,
    ensures
        exists|w: int|
            {
                &&& 0 <= w < rules.len()
                &&& #[trigger] hits[w]
                &&& rules[w].priority == spec_select(rules, hits, priority).0
                &&& rules[w].priority > priority
                &&& Some(rules[w].command) == spec_select(rules, hits, priority).1
                &&& forall|j: int|
                    0 <= j < rules.len() && #[trigger] hits[j] ==> rules[j].priority
                        <= rules[w].priority
                &&& forall|j: int|
                    0 <= j < w && #[trigger] hits[j] ==> rules[j].priority < rules[w].priority
            },
    decreases rules.len(),
{
    let front = rules.drop_last();
    let front_hits = hits.drop_last();
    let last = rules.len() - 1;
    let before = spec_select(front, front_hits, priority);
    lemma_select_grows(front, front_hits, priority);
    lemma_select_none(front, front_hits, priority);
    assert(forall|i: int| 0 <= i < last ==> front[i] == rules[i] && front_hits[i] == hits[i]);
    if hits[last] && rules[last].priority > before.0 {
        if before.1 is Some {
            lemma_select_highest(front, front_hits, priority);
            assert forall|j: int| 0 <= j < last && #[trigger] hits[j] implies rules[j].priority
                < rules[last].priority by {
                assert(front_hits[j]);
            }
        } else {
            assert forall|j: int| 0 <= j < last && #[trigger] hits[j] implies rules[j].priority
                < rules[last].priority by {
                assert(front_hits[j]);
            }
        }
        assert(hits[last]);
    } else {
        lemma_select_highest(front, front_hits, priority);
        let w = choose|w: int|
            {
                &&& 0 <= w < front.len()
                &&& #[trigger] front_hits[w]
                &&& front[w].priority == before.0
                &&& front[w].priority > priority
                &&& Some(front[w].command) == before.1
                &&& forall|j: int|
                    0 <= j < front.len() && #[trigger] front_hits[j] ==> front[j].priority
                        <= front[w].priority
                &&& forall|j: int|
                    0 <= j < w && #[trigger] front_hits[j] ==> front[j].priority
                        < front[w].priority
            };
        assert(hits[w]);
        assert forall|j: int| 0 <= j < rules.len() && #[trigger] hits[j] implies rules[j].priority
            <= rules[w].priority by {
            if j < last {
                assert(front_hits[j]);
            }
        }
        assert forall|j: int| 0 <= j < w && #[trigger] hits[j] implies rules[j].priority
            < rules[w].priority by {
            assert(front_hits[j]);
        }
    }
}

} // verus!
