//! A flat RGB color used as the uniform payload of the background and square
//! shapes. Channels are fixed-point thousandths: `1000` stands for full
//! intensity `1.0`. Channels are not clamped here; the backend clamps on
//! output.

use vstd::prelude::*;

verus! {

/// The mathematical model of a [`Color`]: its three channels as integers.
pub ghost struct ColorView {
    pub red: int,
    pub green: int,
    pub blue: int,
}

/// An RGB color with fixed-point channels in thousandths.
#[derive(Clone, Copy, Debug)]
pub struct Color {
    red: i64,
    green: i64,
    blue: i64,
}

impl View for Color {
    type V = ColorView;

    closed spec fn view(&self) -> ColorView {
        ColorView { red: self.red as int, green: self.green as int, blue: self.blue as int }
    }
}

impl Color {
    pub fn new(red: i64, green: i64, blue: i64) -> (c: Color)
        ensures
            c@ == (ColorView { red: red as int, green: green as int, blue: blue as int }),
    {
        Color { red, green, blue }
    }

    pub fn get_red(&self) -> (r: i64)
        ensures
            r == self@.red,
    {
        self.red
    }

    pub fn get_green(&self) -> (r: i64)
        ensures
            r == self@.green,
    {
        self.green
    }

    pub fn get_blue(&self) -> (r: i64)
        ensures
            r == self@.blue,
    {
        self.blue
    }

    pub fn set_red(&mut self, red: i64)
        ensures
            final(self)@ == (ColorView { red: red as int, ..old(self)@ }),
    {
        self.red = red
    }

    pub fn set_green(&mut self, green: i64)
        ensures
            final(self)@ == (ColorView { green: green as int, ..old(self)@ }),
    {
        self.green = green;
    }

    pub fn set_blue(&mut self, blue: i64)
        ensures
            final(self)@ == (ColorView { blue: blue as int, ..old(self)@ }),
    {
        self.blue = blue;
    }
}

} // verus!
