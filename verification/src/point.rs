//! A pair of Cartesian coordinates.

use vstd::prelude::*;
use vstd::std_specs::cmp::PartialEqSpec;
use vstd::std_specs::cmp::PartialEqSpecImpl;
use vstd::std_specs::convert::FromSpec;
use vstd::string::to_string_from_display_ensures;
use vstd::string::StringExecFns;

verus! {

/// A point of the plane, held as its two coordinates.
#[derive(Debug, Clone, Copy)]
pub struct Point<T> {
    x: T,
    y: T,
}

impl<T> View for Point<T> {
    type V = (T, T);

    closed spec fn view(&self) -> (T, T) {
        (self.x, self.y)
    }
}

impl<T: Copy> Point<T> {
    /// The point with the coordinates `x` and `y`. The coordinates are kept
    /// as given, whatever they are.
    pub fn new(x: T, y: T) -> (p: Self)
        ensures
            p@ == (x, y),
    {
        Point { x, y }
    }

    /// Moves the point to the coordinates `x` and `y`; nothing of where it
    /// was before remains.
    pub fn location(&mut self, x: T, y: T)
        ensures
            final(self)@ == (x, y),
    {
        self.x = x;
        self.y = y;
    }

    /// The first coordinate.
    pub fn x(&self) -> (x: T)
        ensures
            x == self@.0,
    {
        self.x
    }

    /// The second coordinate.
    pub fn y(&self) -> (y: T)
        ensures
            y == self@.1,
    {
        self.y
    }
}

impl<T: Copy + From<i8>> Point<T> {
    /// The origin: both coordinates are the scalar that stands for zero.
    pub fn new_def() -> (p: Self)
        ensures
            <T as FromSpec<i8>>::obeys_from_spec() ==> p@ == (
                <T as FromSpec<i8>>::from_spec(0i8),
                <T as FromSpec<i8>>::from_spec(0i8),
            ),
    {
        Point { x: T::from(0i8), y: T::from(0i8) }
    }
}

impl<T: PartialEq> PartialEq for Point<T> {
    /// Two points are equal when their first coordinates compare equal and
    /// their second coordinates compare equal, by the coordinates' own `==`.
    fn eq(&self, other: &Self) -> (equal: bool) {
        self.x == other.x && self.y == other.y
    }
}

impl<T: PartialEq> PartialEqSpecImpl for Point<T> {
    open spec fn obeys_eq_spec() -> bool {
        T::obeys_eq_spec()
    }

    open spec fn eq_spec(&self, other: &Self) -> bool {
        self@.0.eq_spec(&other@.0) && self@.1.eq_spec(&other@.1)
    }
}

/// Where the coordinates' `==` holds of two values exactly when they are the
/// same value, two points are equal exactly when they have the same
/// coordinates: any difference in a coordinate makes them unequal.
pub proof fn equal_points_have_equal_coordinates<T: PartialEq>(p: Point<T>, q: Point<T>)
    requires
        forall|a: T, b: T| #[trigger] a.eq_spec(&b) <==> a == b,
    ensures
        PartialEqSpec::eq_spec(&p, &q) <==> p@ == q@,
{
}

impl<T: Copy + core::fmt::Display> Point<T> {
    /// The point as text: an opening bracket, the first coordinate as its
    /// type displays it, a comma and a space, the second coordinate, and a
    /// closing bracket.
    pub fn to_text(&self) -> (text: String)
        ensures
            exists|xs: String, ys: String|
                {
                    &&& #[trigger] to_string_from_display_ensures::<T>(&self@.0, xs)
                    &&& #[trigger] to_string_from_display_ensures::<T>(&self@.1, ys)
                    &&& text@ == "("@ + xs@ + ", "@ + ys@ + ")"@
                },
    {
        let xs = self.x.to_string();
        let ys = self.y.to_string();
        assert(to_string_from_display_ensures::<T>(&self@.0, xs));
        assert(to_string_from_display_ensures::<T>(&self@.1, ys));
        let mut text = String::from_str("(");
        text.append(xs.as_str());
        text.append(", ");
        text.append(ys.as_str());
        text.append(")");
        assert(text@ =~= "("@ + xs@ + ", "@ + ys@ + ")"@);
        text
    }
}

} // verus!
