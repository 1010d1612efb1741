//! The colour policy: one colour for each kind of JSON value, and its builder.

use vstd::prelude::*;

use crate::color::Color;

verus! {

/// The kinds of text that are coloured independently of each other.
#[derive(Clone, Copy, Debug, PartialEq, Eq, Structural)]
pub enum Category {
    Null,
    Boolean,
    Number,
    String,
    /// The name of an object member.
    Key,
}

/// A struct representing a specific configuration of colors for the various JSON components.
#[derive(Clone, Copy, Debug, PartialEq, Eq, Structural)]
pub struct Colorizer {
    pub null: Color,
    pub boolean: Color,
    pub number: Color,
    pub string: Color,
    pub key: Color,
}

/// Collects the colours of a [`Colorizer`] one by one. What was never set is `Plain`.
pub struct ColorizerBuilder {
    null: Color,
    boolean: Color,
    number: Color,
    string: Color,
    key: Color,
}

impl View for ColorizerBuilder {
    type V = Colorizer;

    /// The policy that `build` would give now.
    closed spec fn view(&self) -> Colorizer {
        Colorizer {
            null: self.null,
            boolean: self.boolean,
            number: self.number,
            string: self.string,
            key: self.key,
        }
    }
}

impl Default for ColorizerBuilder {
    fn default() -> (builder: Self)
        ensures
            builder@ == Colorizer::plain(),
    {
        ColorizerBuilder {
            null: Color::Plain,
            boolean: Color::Plain,
            number: Color::Plain,
            string: Color::Plain,
            key: Color::Plain,
        }
    }
}

impl ColorizerBuilder {
    pub(crate) fn new() -> (builder: Self)
        ensures
            builder@ == Colorizer::plain(),
    {
        Default::default()
    }

    /// Sets the color of the null value.
    pub fn null(&mut self, color: Color) -> (builder: &mut Self)
        ensures
            builder@ == (Colorizer { null: color, ..old(self)@ }),
            *final(self) == *final(builder),
    {
        self.null = color;
        self
    }

    /// Sets the color of boolean values.
    pub fn boolean(&mut self, color: Color) -> (builder: &mut Self)
        ensures
            builder@ == (Colorizer { boolean: color, ..old(self)@ }),
            *final(self) == *final(builder),
    {
        self.boolean = color;
        self
    }

    /// Sets the color of number values.
    pub fn number(&mut self, color: Color) -> (builder: &mut Self)
        ensures
            builder@ == (Colorizer { number: color, ..old(self)@ }),
            *final(self) == *final(builder),
    {
        self.number = color;
        self
    }

    /// Sets the color of string values.
    pub fn string(&mut self, color: Color) -> (builder: &mut Self)
        ensures
            builder@ == (Colorizer { string: color, ..old(self)@ }),
            *final(self) == *final(builder),
    {
        self.string = color;
        self
    }

    /// Sets the color of JSON object keys.
    pub fn key(&mut self, color: Color) -> (builder: &mut Self)
        ensures
            builder@ == (Colorizer { key: color, ..old(self)@ }),
            *final(self) == *final(builder),
    {
        self.key = color;
        self
    }

    /// Constructs a new Colorizer.
    pub fn build(&self) -> (colorizer: Colorizer)
        ensures
            colorizer == self@,
    {
        Colorizer {
            null: self.null,
            boolean: self.boolean,
            number: self.number,
            string: self.string,
            key: self.key,
        }
    }
}

impl Default for Colorizer {
    fn default() -> (colorizer: Self)
        ensures
            colorizer == Colorizer::plain(),
    {
        Colorizer {
            null: Color::Plain,
            boolean: Color::Plain,
            number: Color::Plain,
            string: Color::Plain,
            key: Color::Plain,
        }
    }
}

impl Colorizer {
    /// The policy that colours nothing.
    pub open spec fn plain() -> Colorizer {
        Colorizer {
            null: Color::Plain,
            boolean: Color::Plain,
            number: Color::Plain,
            string: Color::Plain,
            key: Color::Plain,
        }
    }

    /// The preset of [`Colorizer::arbitrary`].
    pub open spec fn preset() -> Colorizer {
        Colorizer {
            null: Color::Cyan,
            boolean: Color::Yellow,
            number: Color::Magenta,
            string: Color::Green,
            key: Color::Blue,
        }
    }

    /// The colour that this policy gives to a category.
    pub open spec fn color_of(&self, category: Category) -> Color {
        match category {
            Category::Null => self.null,
            Category::Boolean => self.boolean,
            Category::Number => self.number,
            Category::String => self.string,
            Category::Key => self.key,
        }
    }

    /// Starts building a new Colorizer: every colour is `Plain` until it is set.
    pub fn new() -> (builder: ColorizerBuilder)
        ensures
            builder@ == Colorizer::plain(),
    {
        ColorizerBuilder::new()
    }

    /// Creates a new Colorizer with a predefined set of colors for the various JSON components.
    ///
    /// Use this if you want your JSON to be colored, but don't care about the specific colors.
    pub fn arbitrary() -> (colorizer: Self)
        ensures
            colorizer == Colorizer::preset(),
    {
        Colorizer::new()
            .null(Color::Cyan)
            .boolean(Color::Yellow)
            .number(Color::Magenta)
            .string(Color::Green)
            .key(Color::Blue)
            .build()
    }
}

} // verus!
