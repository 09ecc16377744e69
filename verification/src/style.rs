//! How the generated class is to look.

use vstd::prelude::*;
use vstd::string::*;

verus! {

/// How the generated code reaches into the module's memory.
#[derive(Copy, Clone, Debug, PartialEq, Eq, Structural)]
pub enum AccessStyle {
    /// A typed array is constructed over each buffer. This makes more
    /// objects, but a whole buffer can be copied with one call of `set`.
    TypedArrays,
    /// One `DataView` over the whole memory is kept, and every element is
    /// read or written on its own through it.
    DataView,
}

impl Default for AccessStyle {
    fn default() -> (style: Self)
        ensures
            style == AccessStyle::DataView,
    {
        AccessStyle::DataView
    }
}

/// The choices that are made once for a whole generated class.
#[derive(Clone, Debug)]
pub struct Config {
    /// Name of the generated class.
    pub class_name: String,
    /// Number of spaces per step of indentation.
    pub indent: u32,
    /// How arrays in module memory are reached.
    pub access_style: AccessStyle,
}

impl Default for Config {
    fn default() -> (config: Self)
        ensures
            config.class_name@ == "WasmWrapper"@,
            config.indent == 4,
            config.access_style == AccessStyle::DataView,
    {
        Config {
            class_name: String::from_str("WasmWrapper"),
            indent: 4,
            access_style: AccessStyle::DataView,
        }
    }
}

impl Config {
    /// The default choices: a class `WasmWrapper`, four spaces, a `DataView`.
    pub fn new() -> (config: Self)
        ensures
            config.class_name@ == "WasmWrapper"@,
            config.indent == 4,
            config.access_style == AccessStyle::DataView,
    {
        Config {
            class_name: String::from_str("WasmWrapper"),
            indent: 4,
            access_style: AccessStyle::DataView,
        }
    }

    /// Sets the name of the generated class, and nothing else.
    pub fn with_class_name(&mut self, class_name: &str) -> (same: &mut Self)
        ensures
            same.class_name@ == class_name@,
            same.indent == old(self).indent,
            same.access_style == old(self).access_style,
            *final(self) == *final(same),
    {
        self.class_name = String::from_str(class_name);
        self
    }

    /// Sets the width of one step of indentation, and nothing else.
    pub fn with_indent(&mut self, indent: u32) -> (same: &mut Self)
        ensures
            same.class_name == old(self).class_name,
            same.indent == indent,
            same.access_style == old(self).access_style,
            *final(self) == *final(same),
    {
        self.indent = indent;
        self
    }

    /// Sets how arrays are reached, and nothing else.
    pub fn with_array_access_style(&mut self, style: AccessStyle) -> (same: &mut Self)
        ensures
            same.class_name == old(self).class_name,
            same.indent == old(self).indent,
            same.access_style == style,
            *final(self) == *final(same),
    {
        self.access_style = style;
        self
    }
}

} // verus!
