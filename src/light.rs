use vstd::prelude::*;
use crate::value::{
    Alert, Brightness, ColorCoordinates, ColorHex, ColorRgb, ColorTemperature, Effect, Hue,
    Saturation,
};

verus! {

/// Operations on lights.
#[derive(Clone, Debug)]
pub enum Arg {
    /// Modifies the state and attributes of a light.
    Change(SetArgs),
    /// Prints the state and attributes of lights.
    Get(Get),
    /// Searches for new lights.
    Search(Search),
    /// Deletes a light.
    Delete(Delete),
}

/// Arguments that modify the state and attributes of a light.
#[derive(Clone, Debug)]
pub struct SetArgs {
    /// Identifier of the light.
    pub id: String,
    /// Turns the light on.
    pub on: bool,
    /// Turns the light off; ignored when `on` is given too.
    pub off: bool,
    pub brightness: Option<Brightness>,
    pub hue: Option<Hue>,
    pub saturation: Option<Saturation>,
    pub color_temperature: Option<ColorTemperature>,
    pub color_space_coordinates: Option<ColorCoordinates>,
    pub color_rgb: Option<ColorRgb>,
    pub color_hex: Option<ColorHex>,
    pub alert: Option<Alert>,
    pub effect: Option<Effect>,
    /// Transition time, as a multiple of 100 ms.
    pub transition_time: Option<u16>,
    /// New name of the light.
    pub name: Option<String>,
}

/// Arguments that select the lights to print.
#[derive(Clone, Debug)]
pub struct Get {
    /// Identifier of the light; all lights when absent.
    pub id: Option<String>,
}

/// Arguments of a search for new lights.
#[derive(Clone, Copy, Debug, PartialEq, Eq, Structural)]
pub struct Search {
    /// Prints the lights found by the last search instead of starting one.
    pub get: bool,
}

/// Arguments that select the light to delete.
#[derive(Clone, Debug)]
pub struct Delete {
    /// Identifier of the light.
    pub id: String,
}

/// The color a light is set to.
#[derive(Clone, Debug)]
pub enum LightColor {
    /// A point of the color space.
    Coordinates(ColorCoordinates),
    /// Red, green and blue values.
    Rgb(ColorRgb),
}

/// The fields of a light's state to change; absent fields stay as they are.
#[derive(Clone, Debug)]
pub struct StateModifier {
    pub on: Option<bool>,
    pub brightness: Option<Brightness>,
    pub hue: Option<Hue>,
    pub saturation: Option<Saturation>,
    pub color: Option<LightColor>,
    pub color_temperature: Option<ColorTemperature>,
    pub alert: Option<Alert>,
    pub effect: Option<Effect>,
    pub transition_time: Option<u16>,
}

/// The attributes of a light to change; absent fields stay as they are.
#[derive(Clone, Debug)]
pub struct AttributeModifier {
    pub name: Option<String>,
}

impl StateModifier {
    pub open spec fn spec_is_empty(&self) -> bool {
        &&& self.on is None
        &&& self.brightness is None
        &&& self.hue is None
        &&& self.saturation is None
        &&& self.color is None
        &&& self.color_temperature is None
        &&& self.alert is None
        &&& self.effect is None
        &&& self.transition_time is None
    }

    /// Whether no field is changed.
    #[verifier::when_used_as_spec(spec_is_empty)]
    pub fn is_empty(&self) -> (r: bool)
        ensures
            r == self.spec_is_empty(),
    {
        self.on.is_none() && self.brightness.is_none() && self.hue.is_none()
            && self.saturation.is_none() && self.color.is_none()
            && self.color_temperature.is_none() && self.alert.is_none() && self.effect.is_none()
            && self.transition_time.is_none()
    }
}

impl AttributeModifier {
    pub open spec fn spec_is_empty(&self) -> bool {
        self.name is None
    }

    /// Whether no attribute is changed.
    #[verifier::when_used_as_spec(spec_is_empty)]
    pub fn is_empty(&self) -> (r: bool)
        ensures
            r == self.spec_is_empty(),
    {
        self.name.is_none()
    }
}

/// The on/off change that the flags ask for: `on` wins when both are given.
pub open spec fn power_of(on: bool, off: bool) -> Option<bool> {
    if on {
        Some(true)
    } else if off {
        Some(false)
    } else {
        None
    }
}

/// The color that the arguments ask for: of several, the hex value, then the
/// red-green-blue values, then the coordinates.
pub open spec fn color_of(set: SetArgs) -> Option<LightColor> {
    if let Some(h) = set.color_hex {
        Some(LightColor::Rgb(ColorRgb { red: h.red, green: h.green, blue: h.blue }))
    } else if let Some(c) = set.color_rgb {
        Some(LightColor::Rgb(c))
    } else if let Some(c) = set.color_space_coordinates {
        Some(LightColor::Coordinates(c))
    } else {
        None
    }
}

/// The state change that the arguments ask for.
pub open spec fn state_of(set: SetArgs) -> StateModifier {
    StateModifier {
        on: power_of(set.on, set.off),
        brightness: set.brightness,
        hue: set.hue,
        saturation: set.saturation,
        color: color_of(set),
        color_temperature: set.color_temperature,
        alert: set.alert,
        effect: set.effect,
        transition_time: set.transition_time,
    }
}

/// The attribute change that the arguments ask for.
pub open spec fn attributes_of(set: SetArgs) -> AttributeModifier {
    AttributeModifier { name: set.name }
}

/// Whether the arguments ask for no change at all.
pub open spec fn asks_nothing(set: SetArgs) -> bool {
    &&& !set.on
    &&& !set.off
    &&& set.brightness is None
    &&& set.hue is None
    &&& set.saturation is None
    &&& set.color_temperature is None
    &&& set.color_space_coordinates is None
    &&& set.color_rgb is None
    &&& set.color_hex is None
    &&& set.alert is None
    &&& set.effect is None
    &&& set.transition_time is None
    &&& set.name is None
}

fn clone_coordinates(c: &ColorCoordinates) -> (r: ColorCoordinates)
    ensures
        r == *c,
{
    ColorCoordinates { x: c.x.clone(), y: c.y.clone() }
}

fn clone_name(n: &Option<String>) -> (r: Option<String>)
    ensures
        r == *n,
{
    match n {
        Some(s) => Some(s.clone()),
        None => None,
    }
}

impl SetArgs {
    /// The state change that the arguments ask for, with only the given fields set.
    pub fn to_state_modifier(&self) -> (r: StateModifier)
        ensures
            r == state_of(*self),
    {
        let on = if self.on {
            Some(true)
        } else if self.off {
            Some(false)
        } else {
            None
        };
        let mut color: Option<LightColor> = None;
        if let Some(c) = &self.color_space_coordinates {
            color = Some(LightColor::Coordinates(clone_coordinates(c)));
        }
        if let Some(c) = self.color_rgb {
            color = Some(LightColor::Rgb(c));
        }
        if let Some(h) = self.color_hex {
            color = Some(LightColor::Rgb(ColorRgb { red: h.red, green: h.green, blue: h.blue }));
        }
        StateModifier {
            on,
            brightness: self.brightness,
            hue: self.hue,
            saturation: self.saturation,
            color,
            color_temperature: self.color_temperature,
            alert: self.alert,
            effect: self.effect,
            transition_time: self.transition_time,
        }
    }

    /// The attribute change that the arguments ask for.
    pub fn to_attribute_modifier(&self) -> (r: AttributeModifier)
        ensures
            r == attributes_of(*self),
    {
        AttributeModifier { name: clone_name(&self.name) }
    }
}

/// When both `on` and `off` are given, the light is turned on.
pub proof fn on_wins_over_off(set: SetArgs)
    requires
        set.on,
        set.off,
    ensures
        state_of(set).on == Some(true),
{
}

/// Arguments that ask for nothing change neither the state nor the attributes.
pub proof fn no_flags_change_nothing(set: SetArgs)
    requires
        asks_nothing(set),
    ensures
        state_of(set).spec_is_empty(),
        attributes_of(set).spec_is_empty(),
{
}

/// Coordinates alone set a coordinate-based color.
pub proof fn coordinates_set_coordinate_color(set: SetArgs)
    requires
        set.color_space_coordinates is Some,
        set.color_rgb is None,
        set.color_hex is None,
    ensures
        state_of(set).color == Some(LightColor::Coordinates(set.color_space_coordinates->0)),
{
}

} // verus!
