//! The theme of the canvas.

use vstd::prelude::*;

verus! {

/// The colors a canvas can have.
#[derive(Clone, Copy, PartialEq, Eq, Debug)]
pub enum CanvasColor {
    White,
    Black,
}

/// The colors of the application.
#[derive(Clone, Copy, PartialEq, Eq, Debug)]
pub struct Theme {
    pub canvas: CanvasColor,
}

/// The theme with a white canvas.
pub fn light_mode() -> (theme: Theme)
    ensures
        theme.canvas == CanvasColor::White,
{
    Theme { canvas: CanvasColor::White }
}

/// The theme with a black canvas.
pub fn dark_mode() -> (theme: Theme)
    ensures
        theme.canvas == CanvasColor::Black,
{
    Theme { canvas: CanvasColor::Black }
}

} // verus!
