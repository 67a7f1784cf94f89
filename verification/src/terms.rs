//! Terms: the process quantities as arithmetic on named numbers.
//!
//! A term says how a quantity is computed from the numbers of the gas state
//! records and from a few other numbers of the session. It is data: the
//! caller evaluates it on machine numbers. Its meaning is stated here on
//! fractions, where the arithmetic is exact.

use vstd::prelude::*;
use crate::engine::{Property, Record};
use crate::exact::{Frac, Ratio};

verus! {

/// A number that a term may refer to.
#[derive(Clone, Copy, Debug, PartialEq, Eq, Structural)]
pub enum Quantity {
    /// A property of one of the six gas state records, in base units.
    Recorded(Record, Property),
    /// The enthalpy in J/mol of the selected gas at the outlet pressure and
    /// the isentropic outlet temperature.
    IsentropicEnthalpy,
    /// The polytropic exponent of the process.
    PolytropicExponent,
    /// The mass flow in kg/s.
    MassFlow,
    /// The diameter of the wheel.
    WheelDiameter,
    /// The revolutions of the wheel per minute.
    Rpm,
    /// The number pi.
    Pi,
}

/// An arithmetic term.
#[derive(Debug, PartialEq, Eq)]
pub enum Term {
    Value(Quantity),
    Constant(Ratio),
    Sum(Box<Term>, Box<Term>),
    Difference(Box<Term>, Box<Term>),
    Product(Box<Term>, Box<Term>),
    Quotient(Box<Term>, Box<Term>),
    /// The quotient of the two terms, but zero where the second is exactly
    /// zero.
    QuotientOrZero(Box<Term>, Box<Term>),
    /// The second term where the first is 1 or more, and the third where it
    /// is not.
    IfAtLeastOne(Box<Term>, Box<Term>, Box<Term>),
}

/// The numbers that the quantities have.
pub type Readings = spec_fn(Quantity) -> Frac;

/// The value of a term under the readings `of`.
pub open spec fn term_value(term: Term, of: Readings) -> Frac
    decreases term,
{
    match term {
        Term::Value(q) => of(q),
        Term::Constant(r) => r.frac(),
        Term::Sum(a, b) => term_value(*a, of).plus(term_value(*b, of)),
        Term::Difference(a, b) => term_value(*a, of).minus(term_value(*b, of)),
        Term::Product(a, b) => term_value(*a, of).times(term_value(*b, of)),
        Term::Quotient(a, b) => term_value(*a, of).over(term_value(*b, of)),
        Term::QuotientOrZero(a, b) => term_value(*a, of).over_or_zero(term_value(*b, of)),
        Term::IfAtLeastOne(r, a, b) => if term_value(*r, of).at_least_one() {
            term_value(*a, of)
        } else {
            term_value(*b, of)
        },
    }
}

impl Term {
    /// The term that is a property of a record.
    pub fn recorded(record: Record, property: Property) -> (term: Term)
        ensures
            term == Term::Value(Quantity::Recorded(record, property)),
    {
        Term::Value(Quantity::Recorded(record, property))
    }

    /// The term that is the whole number `n`.
    pub fn whole(n: u64) -> (term: Term)
        ensures
            term == Term::Constant(Ratio { num: n, den: 1 }),
    {
        Term::Constant(Ratio { num: n, den: 1 })
    }

    /// The sum `self + other`.
    pub fn plus(self, other: Term) -> (term: Term)
        ensures
            term == Term::Sum(Box::new(self), Box::new(other)),
    {
        Term::Sum(Box::new(self), Box::new(other))
    }

    /// The difference `self - other`.
    pub fn minus(self, other: Term) -> (term: Term)
        ensures
            term == Term::Difference(Box::new(self), Box::new(other)),
    {
        Term::Difference(Box::new(self), Box::new(other))
    }

    /// The product `self * other`.
    pub fn times(self, other: Term) -> (term: Term)
        ensures
            term == Term::Product(Box::new(self), Box::new(other)),
    {
        Term::Product(Box::new(self), Box::new(other))
    }

    /// The quotient `self / other`.
    pub fn over(self, other: Term) -> (term: Term)
        ensures
            term == Term::Quotient(Box::new(self), Box::new(other)),
    {
        Term::Quotient(Box::new(self), Box::new(other))
    }
}

} // verus!
