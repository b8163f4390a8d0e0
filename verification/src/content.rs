//! The drawing payloads a cell anchor can carry.  The adjustment engine
//! never reads inside a payload; it only dispatches on which kind is
//! present, so each kind carries just its name here.

use vstd::prelude::*;

verus! {

/// A free-form drawing shape.
#[derive(Clone, Debug)]
pub struct Shape {
    name: String,
}

/// The frame that hosts a chart inside a drawing anchor.
#[derive(Clone, Debug)]
pub struct GraphicFrame {
    name: String,
}

/// A connector shape between two drawing objects.
#[derive(Clone, Debug)]
pub struct ConnectionShape {
    name: String,
}

/// An embedded picture.
#[derive(Clone, Debug)]
pub struct Picture {
    name: String,
}

impl View for Shape {
    type V = Seq<char>;

    closed spec fn view(&self) -> Seq<char> {
        self.name@
    }
}

impl View for GraphicFrame {
    type V = Seq<char>;

    closed spec fn view(&self) -> Seq<char> {
        self.name@
    }
}

impl View for ConnectionShape {
    type V = Seq<char>;

    closed spec fn view(&self) -> Seq<char> {
        self.name@
    }
}

impl View for Picture {
    type V = Seq<char>;

    closed spec fn view(&self) -> Seq<char> {
        self.name@
    }
}

impl Default for Shape {
    fn default() -> (r: Self)
        ensures
            r@ == Seq::<char>::empty(),
    {
        Shape { name: String::new() }
    }
}

impl Default for GraphicFrame {
    fn default() -> (r: Self)
        ensures
            r@ == Seq::<char>::empty(),
    {
        GraphicFrame { name: String::new() }
    }
}

impl Default for ConnectionShape {
    fn default() -> (r: Self)
        ensures
            r@ == Seq::<char>::empty(),
    {
        ConnectionShape { name: String::new() }
    }
}

impl Default for Picture {
    fn default() -> (r: Self)
        ensures
            r@ == Seq::<char>::empty(),
    {
        Picture { name: String::new() }
    }
}

impl Shape {
    pub fn get_name(&self) -> (r: &str)
        ensures
            r@ == self@,
    {
        self.name.as_str()
    }

    pub fn set_name(&mut self, value: String)
        ensures
            final(self)@ == value@,
    {
        self.name = value;
    }
}

impl GraphicFrame {
    pub fn get_name(&self) -> (r: &str)
        ensures
            r@ == self@,
    {
        self.name.as_str()
    }

    pub fn set_name(&mut self, value: String)
        ensures
            final(self)@ == value@,
    {
        self.name = value;
    }
}

impl ConnectionShape {
    pub fn get_name(&self) -> (r: &str)
        ensures
            r@ == self@,
    {
        self.name.as_str()
    }

    pub fn set_name(&mut self, value: String)
        ensures
            final(self)@ == value@,
    {
        self.name = value;
    }
}

impl Picture {
    pub fn get_name(&self) -> (r: &str)
        ensures
            r@ == self@,
    {
        self.name.as_str()
    }

    pub fn set_name(&mut self, value: String)
        ensures
            final(self)@ == value@,
    {
        self.name = value;
    }
}

} // verus!
