//! The title menu's buttons: how each one reacts to the pointer.
//!
//! A button is tinted by how the pointer interacts with it, and a click
//! carries the button's action out: the play button starts a run, the exit
//! button closes the game.

use vstd::prelude::*;

use crate::GameState;

verus! {

/// Which button of the menu an entity is.
#[derive(Clone, Copy, Debug, PartialEq, Eq, Structural)]
pub enum ButtonIdent {
    Play,
    Exit,
}

/// How the pointer stands to a button this frame.
#[derive(Clone, Copy, Debug, PartialEq, Eq, Structural)]
pub enum Interaction {
    Clicked,
    Hovered,
    Idle,
}

/// What a frame of the menu asks the shell to do: enter a scene, or quit.
#[derive(Clone, Copy, Debug, PartialEq, Eq, Structural)]
pub enum MenuCommand {
    EnterState(GameState),
    ExitApp,
}

/// A color as red, green and blue intensities in milliunits of full scale.
#[derive(Clone, Copy, Debug, PartialEq, Eq, Structural)]
pub struct Rgb {
    pub r: u32,
    pub g: u32,
    pub b: u32,
}

/// The tint of a button nobody points at.
pub fn normal_button() -> (c: Rgb)
    ensures
        c == (Rgb { r: 1000, g: 920, b: 800 }),
{
    Rgb { r: 1000, g: 920, b: 800 }
}

/// The tint of a button the pointer hovers over.
pub fn hovered_button() -> (c: Rgb)
    ensures
        c == (Rgb { r: 1000, g: 940, b: 570 }),
{
    Rgb { r: 1000, g: 940, b: 570 }
}

/// The tint of a button being pressed.
pub fn pressed_button() -> (c: Rgb)
    ensures
        c == (Rgb { r: 1000, g: 840, b: 480 }),
{
    Rgb { r: 1000, g: 840, b: 480 }
}

/// How one button answers the pointer this frame: the tint it takes, and on
/// a click the command it issues — play starts a run, exit closes the game.
pub fn button_system(button: &ButtonIdent, interaction: &Interaction) -> (res: (
    Rgb,
    Option<MenuCommand>,
))
    ensures
        *interaction == Interaction::Clicked ==> res.0 == (Rgb { r: 1000, g: 840, b: 480 })
            && res.1 == Option::Some(
            match button {
                ButtonIdent::Play => MenuCommand::EnterState(GameState::Game),
                ButtonIdent::Exit => MenuCommand::ExitApp,
            },
        ),
        *interaction == Interaction::Hovered ==> res.0 == (Rgb { r: 1000, g: 940, b: 570 })
            && res.1 == Option::<MenuCommand>::None,
        *interaction == Interaction::Idle ==> res.0 == (Rgb { r: 1000, g: 920, b: 800 }) && res.1
            == Option::<MenuCommand>::None,
{
    match interaction {
        Interaction::Clicked => {
            let command = match button {
                ButtonIdent::Play => MenuCommand::EnterState(GameState::Game),
                ButtonIdent::Exit => MenuCommand::ExitApp,
            };
            (pressed_button(), Option::Some(command))
        },
        Interaction::Hovered => (hovered_button(), Option::None),
        Interaction::Idle => (normal_button(), Option::None),
    }
}

} // verus!
