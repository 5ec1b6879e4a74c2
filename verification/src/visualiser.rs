//! What an environment offers to be drawn, and what a visualiser does with it.
//!
//! An environment describes its state as geometries, as a pixel array or as
//! text; a visualiser shows one of these. Neither knows the other's insides:
//! they meet in the types of this library. The error types are the
//! implementor's own.

use vstd::prelude::*;
use crate::color::Color;
use crate::geometry::Geometry2D;
use crate::geometry3d::Geometry3D;
use crate::input::Input;
use crate::pixel_array::PixelArray;
use crate::scalar::Scalar;
use crate::viewport::{Viewport2D, Viewport2DModification};

verus! {

/// A queue of input events, oldest first, for an agent to read.
pub trait InputProvider {
    /// Drops every event.
    fn clear(&mut self);

    /// The oldest event, which stays in the queue.
    fn peek(&self) -> Option<Input>;

    /// Takes the oldest event out of the queue.
    fn pop(&mut self) -> Option<Input>;

    /// Takes every event out of the queue, oldest first.
    fn pop_all(&mut self) -> Vec<Input>;
}

/// Why an agent that maps input events to actions failed.
#[derive(Debug)]
pub enum InputAgentError<TAMError> {
    /// The mapper from events to an action failed.
    ToActionMapperError(TAMError),
}

impl<TAMError> From<TAMError> for InputAgentError<TAMError> {
    /// The failure of the mapper as a failure of the agent.
    fn from(error: TAMError) -> (r: InputAgentError<TAMError>) {
        InputAgentError::ToActionMapperError(error)
    }
}

impl<TAMError> vstd::std_specs::convert::FromSpecImpl<TAMError> for InputAgentError<TAMError> {
    open spec fn obeys_from_spec() -> bool {
        true
    }

    open spec fn from_spec(error: TAMError) -> InputAgentError<TAMError> {
        InputAgentError::ToActionMapperError(error)
    }
}

/// What an agent driven by input events keeps between runs: nothing.
#[derive(Clone, Copy, Debug, PartialEq, Eq, Structural)]
pub struct InputAgentStorage;

/// Something that shows environments.
pub trait Visualiser<VisualiserError> {
    /// Whether the visualiser is still showing.
    fn is_open(&self) -> bool;

    /// Stops showing.
    fn close(&mut self) -> Result<(), VisualiserError>;
}

/// A visualiser that shows geometries of the plane.
pub trait TwoDimensionalVisualiser<
    TwoDimensionalVisualiserError,
    VisualiserError,
    DrawableEnvironmentError,
>: Visualiser<VisualiserError> {
    /// Shows what the environment draws.
    fn render_two_dimensional<
        DrawableEnvironment: TwoDimensionalDrawableEnvironment<DrawableEnvironmentError>,
    >(&mut self, drawable_environment: &DrawableEnvironment) -> Result<
        (),
        TwoDimensionalVisualiserError,
    >;
}

/// A visualiser that shows geometries of space.
pub trait ThreeDimensionalVisualiser<
    ThreeDimensionalVisualiserError,
    VisualiserError,
    DrawableEnvironmentError,
>: Visualiser<VisualiserError> {
    /// Shows what the environment draws.
    fn render_three_dimensional<
        DrawableEnvironment: ThreeDimensionalDrawableEnvironment<DrawableEnvironmentError>,
    >(&mut self, drawable_environment: &DrawableEnvironment) -> Result<
        (),
        ThreeDimensionalVisualiserError,
    >;
}

/// A visualiser that shows pixel arrays.
pub trait PixelArrayVisualiser<
    PixelArrayVisualiserError,
    VisualiserError,
    DrawableEnvironmentError,
>: Visualiser<VisualiserError> {
    /// Shows what the environment draws.
    fn render_pixel_array<
        DrawableEnvironment: PixelArrayDrawableEnvironment<DrawableEnvironmentError>,
    >(&mut self, drawable_environment: &DrawableEnvironment) -> Result<
        (),
        PixelArrayVisualiserError,
    >;
}

/// A visualiser that shows text.
pub trait TextVisualiser<
    TextVisualiserError,
    VisualiserError,
    DrawableEnvironmentError,
>: Visualiser<VisualiserError> {
    /// Shows what the environment draws.
    fn render_text<DrawableEnvironment: TextDrawableEnvironment<DrawableEnvironmentError>>(
        &mut self,
        drawable_environment: &DrawableEnvironment,
    ) -> Result<(), TextVisualiserError>;
}

/// An environment that can be drawn.
pub trait DrawableEnvironment {
    /// How many steps a second the environment would like to be shown at, if
    /// it cares.
    fn suggested_rendered_steps_per_second() -> Option<Scalar>;
}

/// An environment that draws itself as geometries of the plane.
pub trait TwoDimensionalDrawableEnvironment<EnvironmentError>: DrawableEnvironment {
    /// The geometries that show the present state.
    fn draw_two_dimensional(&self) -> Result<Vec<Geometry2D>, EnvironmentError>;

    /// The viewport that the environment would like to be seen through, and how
    /// to fit it, if it cares.
    fn preferred_view(&self) -> Option<(Viewport2D, Viewport2DModification)>;

    /// The background that the environment would like, if it cares.
    fn preferred_background_color(&self) -> Option<Color>;
}

/// An environment that draws itself as geometries of space, with geometries of
/// the plane laid over them.
pub trait ThreeDimensionalDrawableEnvironment<EnvironmentError>: DrawableEnvironment {
    /// The geometries that show the present state.
    fn draw_three_dimensional(&self) -> Result<
        (Vec<Geometry3D>, Vec<Geometry2D>),
        EnvironmentError,
    >;
}

/// An environment that draws itself as a pixel array.
pub trait PixelArrayDrawableEnvironment<EnvironmentError>: DrawableEnvironment {
    /// The pixels that show the present state.
    fn draw_pixel_array(&self) -> Result<PixelArray, EnvironmentError>;
}

/// An environment that draws itself as text.
pub trait TextDrawableEnvironment<EnvironmentError>: DrawableEnvironment {
    /// The text that shows the present state.
    fn draw_text(&self) -> Result<String, EnvironmentError>;
}

} // verus!
