use vstd::prelude::*;
use crate::inputs::input_events::CommandMotion;
use crate::inputs::input_events::CommandMotionView;
use crate::inputs::input_events::CommandType;
use crate::inputs::input_events::spec_rules;

verus! {

/// The command table as plain values: each rule's priority, pattern and
/// command, in the order in which they are tried.
pub open spec fn spec_motions() -> Seq<CommandMotionView> {
    seq![
        CommandMotionView {
            priority: 1,
            regular_expression: "([^6]+[69]{1,5}[^6]{0,9}5[^5]{0,4}6)"@,
            command: CommandType::DASH,
        },
        CommandMotionView {
            priority: 1,
            regular_expression: "([^4]+[47]{1,5}[^4]{0,9}5[^5]{0,4}4)"@,
            command: CommandType::BACK_DASH,
        },
        CommandMotionView {
            priority: 2,
            regular_expression: "(2[^2]{0,4}3[^3]{0,4}6)"@,
            command: CommandType::FIREBALL,
        },
        CommandMotionView {
            priority: 2,
            regular_expression: "(2[^2]{0,4}1[^1]{0,4}4)"@,
            command: CommandType::R_FIREBALL,
        },
        CommandMotionView {
            priority: 3,
            regular_expression: "(6[^6]{0,4}2[^2]{0,4}3)"@,
            command: CommandType::DP,
        },
        CommandMotionView {
            priority: 3,
            regular_expression: "(4[^4]{0,4}2[^2]{0,4}1)"@,
            command: CommandType::R_DP,
        },
        CommandMotionView {
            priority: 4,
            regular_expression: "(6[^6]{0,6}2[^2]{0,6}4)"@,
            command: CommandType::HALF_CIRCLE_BACK,
        },
        CommandMotionView {
            priority: 4,
            regular_expression: "(4[^4]{0,6}2[^2]{0,6}6)"@,
            command: CommandType::HALF_CIRCLE_FORWARD,
        },
    ]
}

/// Builds the command table: dashes at priority 1, fireball motions at 2,
/// dragon-punch motions at 3 and half circles at 4.
pub fn motions() -> (table: Vec<CommandMotion>)
    ensures
        spec_rules(table@) == spec_motions(),
{
    let mut table: Vec<CommandMotion> = Vec::new();
    table.push(
        CommandMotion::new(1, "([^6]+[69]{1,5}[^6]{0,9}5[^5]{0,4}6)", CommandType::DASH),
    );
    table.push(
        CommandMotion::new(1, "([^4]+[47]{1,5}[^4]{0,9}5[^5]{0,4}4)", CommandType::BACK_DASH),
    );
    table.push(CommandMotion::new(2, "(2[^2]{0,4}3[^3]{0,4}6)", CommandType::FIREBALL));
    table.push(CommandMotion::new(2, "(2[^2]{0,4}1[^1]{0,4}4)", CommandType::R_FIREBALL));
    table.push(CommandMotion::new(3, "(6[^6]{0,4}2[^2]{0,4}3)", CommandType::DP));
    table.push(CommandMotion::new(3, "(4[^4]{0,4}2[^2]{0,4}1)", CommandType::R_DP));
    table.push(CommandMotion::new(4, "(6[^6]{0,6}2[^2]{0,6}4)", CommandType::HALF_CIRCLE_BACK));
    table.push(
        CommandMotion::new(4, "(4[^4]{0,6}2[^2]{0,6}6)", CommandType::HALF_CIRCLE_FORWARD),
    );
    assert(spec_rules(table@) =~= spec_motions());
    table
}

} // verus!
