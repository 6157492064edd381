//! Animation loops for networked colour lights: an angular step generator,
//! exact hue arithmetic, the per-light plans of the loops, the worker state of
//! the randomised loop, the dispatch of loops by name and the commands of the
//! interactive shell.
mod command;
mod dispatch;
mod hue;
mod loops;
mod steps;

pub use command::{
    all_digits, command_of, digits_value, number_of, parse_line, parse_words, u8_of, words_of,
    Command, CommandError, CommandView, Field,
};
pub use dispatch::{first_named, law_names_distinct, DispatchError, LoopKind, LoopRegistry};
pub use hue::{
    law_hue_wrap, law_light_offsets, light_hue, light_hue_units, wrap_units, HslColor, Hue,
};
pub use loops::{
    commands_of, cycle_color, default_roster, law_each_item_once, transition_of, Consumer, Emission, Producer, RandomHueLoop,
    SoloAction, SoloCursor, SoloHueLoop, TestLoop, Transition, CYCLE_STEPS, HOLD_MAX, HOLD_MIN,
    LIGHTNESS, SATURATION, SHIFT_MAX, SHIFT_MIN, SOLO_SHIFT, TRANSITION,
};
pub use steps::{angles_from, law_step_count, rounded_degrees_of, Angle, Steps};
