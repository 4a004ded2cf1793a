//! The local variable table of a frame: slot-indexed typed values.
//! A long or double at slot `i` reserves slot `i + 1`; the reserved
//! slot is absent and any access to it fails with an index error.
use vstd::prelude::*;
use vstd::string::StringExecFns;

use crate::class::constant_pool::{IndexError, LookupError, TypeError};
use crate::error::VariableError;
use crate::vm::types::{
    is_category_2, variable_kind_name, variable_name, ArrayReference, Boolean, Byte, Char,
    ClassReference, Double, Float, Int, Long, ReturnAddress, Short, Variable,
};

verus! {

/// The slot layout for ordered initial values: each value takes one
/// slot, and a long or double additionally reserves the following
/// slot (JVMS 2.6.1).
pub open spec fn locals_of(raw: Seq<Variable>) -> Seq<Option<Variable>>
    decreases raw.len(),
{
    if raw.len() == 0 {
        Seq::empty()
    } else {
        let first: Seq<Option<Variable>> = if is_category_2(raw[0]) {
            seq![Some(raw[0]), None]
        } else {
            seq![Some(raw[0])]
        };
        first + locals_of(raw.drop_first())
    }
}

/// The local at a slot, if the slot is in range and populated.
pub open spec fn local_at(s: Seq<Option<Variable>>, index: u16) -> Option<Variable> {
    if index < s.len() {
        s[index as int]
    } else {
        None
    }
}

/// An encapsulation of the local variable array of a stack frame.
#[derive(Debug)]
pub struct Locals {
    pub variables: Vec<Option<Variable>>,
}

impl Locals {
    /// Builds the local variable table from ordered initial values,
    /// observing the reserved-slot rule for longs and doubles.
    pub fn new(raw_variables: Vec<Variable>) -> (r: Result<Locals, VariableError>)
        ensures
            r matches Ok(locals) && locals.variables@ == locals_of(raw_variables@),
    {
        let ghost orig = raw_variables@;
        let mut raw = raw_variables;
        let mut variables: Vec<Option<Variable>> = Vec::new();
        proof {
            assert(variables@ =~= locals_of(orig.subrange(0, 0)));
            assert(orig.subrange(0, orig.len() as int) =~= orig);
        }
        while raw.len() > 0
            invariant
                raw@.len() <= orig.len(),
                raw@ == orig.subrange(orig.len() - raw.len(), orig.len() as int),
                variables@ == locals_of(orig.subrange(0, orig.len() - raw.len())),
            decreases raw.len(),
        {
            let ghost done = orig.len() - raw@.len();
            let var = raw.remove(0);
            assert(var == orig[done]);
            let wide = matches!(var, Variable::Long(_) | Variable::Double(_));
            variables.push(Some(var));
            if wide {
                variables.push(None);
            }
            proof {
                lemma_locals_of_push(orig.subrange(0, done), orig[done]);
                assert(orig.subrange(0, done).push(orig[done]) =~= orig.subrange(0, done + 1));
                assert(variables@ =~= locals_of(orig.subrange(0, done + 1)));
                assert(raw@ =~= orig.subrange(orig.len() - raw@.len(), orig.len() as int));
            }
        }
        Ok(Locals { variables })
    }

    /// Writes a value into a slot, growing the table as needed; a
    /// long or double clears the following slot, which it reserves.
    pub fn set(&mut self, index: u16, value: Variable)
        ensures
            final(self).variables@ == locals_set(old(self).variables@, index, value),
    {
        let wide = matches!(value, Variable::Long(_) | Variable::Double(_));
        let needed: usize = index as usize + if wide { 2 } else { 1 };
        while self.variables.len() < needed
            invariant
                self.variables@ == old(self).variables@ + Seq::new(
                    (self.variables@.len() - old(self).variables@.len()) as nat,
                    |j: int| None::<Variable>,
                ),
                self.variables@.len() >= old(self).variables@.len(),
                self.variables@.len() <= needed || self.variables@.len() == old(
                    self,
                ).variables@.len(),
            decreases needed - self.variables.len(),
        {
            self.variables.push(None);
            proof {
                assert(self.variables@ =~= old(self).variables@ + Seq::new(
                    (self.variables@.len() - old(self).variables@.len()) as nat,
                    |j: int| None::<Variable>,
                ));
            }
        }
        let ghost padded = self.variables@;
        proof {
            let s = old(self).variables@;
            let width: int = if is_category_2(value) { 2 } else { 1 };
            let n = if s.len() >= index + width { s.len() as int } else { index + width };
            assert(padded.len() == n);
            assert(padded =~= s + Seq::new((n - s.len()) as nat, |j: int| None::<Variable>));
        }
        self.variables[index as usize] = Some(value);
        proof {
            assert(self.variables@ == padded.update(index as int, Some(value)));
        }
        if wide {
            self.variables[index as usize + 1] = None;
            proof {
                assert(self.variables@ == padded.update(index as int, Some(value)).update(
                    index + 1,
                    None,
                ));
            }
        }
        proof {
            assert(self.variables@ =~= locals_set(old(self).variables@, index, value));
        }
    }

    /// Returns the `Boolean` local at `index`, or says why there is
    /// none: an absent, reserved or out-of-range slot, or a local of
    /// another kind.
    pub fn get_boolean(&self, index: u16) -> (r: Result<Boolean, LookupError>)
        ensures
            match r {
                Ok(v) => local_at(self.variables@, index) == Some(Variable::Boolean(v)),
                Err(LookupError::BadIndex(ie)) => ie.index == index && local_at(self.variables@, index) is None,
                Err(LookupError::WrongType(te)) => {
                    &&& local_at(self.variables@, index) matches Some(stored)
                    &&& !(stored is Boolean)
                    &&& te.wanted_type@ == "Boolean"@
                    &&& te.actual_type@ == variable_kind_name(stored)
                },
            },
    {
        if (index as usize) < self.variables.len() {
            match &self.variables[index as usize] {
                Some(Variable::Boolean(itm)) => Ok(*itm),
                Some(other) => Err(LookupError::WrongType(TypeError {
                    wanted_type: String::from_str("Boolean"),
                    actual_type: variable_name(other),
                })),
                None => Err(LookupError::BadIndex(IndexError { index })),
            }
        } else {
            Err(LookupError::BadIndex(IndexError { index }))
        }
    }

    /// Returns the `Byte` local at `index`, or says why there is
    /// none: an absent, reserved or out-of-range slot, or a local of
    /// another kind.
    pub fn get_byte(&self, index: u16) -> (r: Result<Byte, LookupError>)
        ensures
            match r {
                Ok(v) => local_at(self.variables@, index) == Some(Variable::Byte(v)),
                Err(LookupError::BadIndex(ie)) => ie.index == index && local_at(self.variables@, index) is None,
                Err(LookupError::WrongType(te)) => {
                    &&& local_at(self.variables@, index) matches Some(stored)
                    &&& !(stored is Byte)
                    &&& te.wanted_type@ == "Byte"@
                    &&& te.actual_type@ == variable_kind_name(stored)
                },
            },
    {
        if (index as usize) < self.variables.len() {
            match &self.variables[index as usize] {
                Some(Variable::Byte(itm)) => Ok(*itm),
                Some(other) => Err(LookupError::WrongType(TypeError {
                    wanted_type: String::from_str("Byte"),
                    actual_type: variable_name(other),
                })),
                None => Err(LookupError::BadIndex(IndexError { index })),
            }
        } else {
            Err(LookupError::BadIndex(IndexError { index }))
        }
    }

    /// Returns the `Char` local at `index`, or says why there is
    /// none: an absent, reserved or out-of-range slot, or a local of
    /// another kind.
    pub fn get_char(&self, index: u16) -> (r: Result<Char, LookupError>)
        ensures
            match r {
                Ok(v) => local_at(self.variables@, index) == Some(Variable::Char(v)),
                Err(LookupError::BadIndex(ie)) => ie.index == index && local_at(self.variables@, index) is None,
                Err(LookupError::WrongType(te)) => {
                    &&& local_at(self.variables@, index) matches Some(stored)
                    &&& !(stored is Char)
                    &&& te.wanted_type@ == "Char"@
                    &&& te.actual_type@ == variable_kind_name(stored)
                },
            },
    {
        if (index as usize) < self.variables.len() {
            match &self.variables[index as usize] {
                Some(Variable::Char(itm)) => Ok(*itm),
                Some(other) => Err(LookupError::WrongType(TypeError {
                    wanted_type: String::from_str("Char"),
                    actual_type: variable_name(other),
                })),
                None => Err(LookupError::BadIndex(IndexError { index })),
            }
        } else {
            Err(LookupError::BadIndex(IndexError { index }))
        }
    }

    /// Returns the `Int` local at `index`, or says why there is
    /// none: an absent, reserved or out-of-range slot, or a local of
    /// another kind.
    pub fn get_int(&self, index: u16) -> (r: Result<Int, LookupError>)
        ensures
            match r {
                Ok(v) => local_at(self.variables@, index) == Some(Variable::Int(v)),
                Err(LookupError::BadIndex(ie)) => ie.index == index && local_at(self.variables@, index) is None,
                Err(LookupError::WrongType(te)) => {
                    &&& local_at(self.variables@, index) matches Some(stored)
                    &&& !(stored is Int)
                    &&& te.wanted_type@ == "Int"@
                    &&& te.actual_type@ == variable_kind_name(stored)
                },
            },
    {
        if (index as usize) < self.variables.len() {
            match &self.variables[index as usize] {
                Some(Variable::Int(itm)) => Ok(*itm),
                Some(other) => Err(LookupError::WrongType(TypeError {
                    wanted_type: String::from_str("Int"),
                    actual_type: variable_name(other),
                })),
                None => Err(LookupError::BadIndex(IndexError { index })),
            }
        } else {
            Err(LookupError::BadIndex(IndexError { index }))
        }
    }

    /// Returns the `Float` local at `index`, or says why there is
    /// none: an absent, reserved or out-of-range slot, or a local of
    /// another kind.
    pub fn get_float(&self, index: u16) -> (r: Result<Float, LookupError>)
        ensures
            match r {
                Ok(v) => local_at(self.variables@, index) == Some(Variable::Float(v)),
                Err(LookupError::BadIndex(ie)) => ie.index == index && local_at(self.variables@, index) is None,
                Err(LookupError::WrongType(te)) => {
                    &&& local_at(self.variables@, index) matches Some(stored)
                    &&& !(stored is Float)
                    &&& te.wanted_type@ == "Float"@
                    &&& te.actual_type@ == variable_kind_name(stored)
                },
            },
    {
        if (index as usize) < self.variables.len() {
            match &self.variables[index as usize] {
                Some(Variable::Float(itm)) => Ok(*itm),
                Some(other) => Err(LookupError::WrongType(TypeError {
                    wanted_type: String::from_str("Float"),
                    actual_type: variable_name(other),
                })),
                None => Err(LookupError::BadIndex(IndexError { index })),
            }
        } else {
            Err(LookupError::BadIndex(IndexError { index }))
        }
    }

    /// Returns the `Long` local at `index`, or says why there is
    /// none: an absent, reserved or out-of-range slot, or a local of
    /// another kind.
    pub fn get_long(&self, index: u16) -> (r: Result<Long, LookupError>)
        ensures
            match r {
                Ok(v) => local_at(self.variables@, index) == Some(Variable::Long(v)),
                Err(LookupError::BadIndex(ie)) => ie.index == index && local_at(self.variables@, index) is None,
                Err(LookupError::WrongType(te)) => {
                    &&& local_at(self.variables@, index) matches Some(stored)
                    &&& !(stored is Long)
                    &&& te.wanted_type@ == "Long"@
                    &&& te.actual_type@ == variable_kind_name(stored)
                },
            },
    {
        if (index as usize) < self.variables.len() {
            match &self.variables[index as usize] {
                Some(Variable::Long(itm)) => Ok(*itm),
                Some(other) => Err(LookupError::WrongType(TypeError {
                    wanted_type: String::from_str("Long"),
                    actual_type: variable_name(other),
                })),
                None => Err(LookupError::BadIndex(IndexError { index })),
            }
        } else {
            Err(LookupError::BadIndex(IndexError { index }))
        }
    }

    /// Returns the `Short` local at `index`, or says why there is
    /// none: an absent, reserved or out-of-range slot, or a local of
    /// another kind.
    pub fn get_short(&self, index: u16) -> (r: Result<Short, LookupError>)
        ensures
            match r {
                Ok(v) => local_at(self.variables@, index) == Some(Variable::Short(v)),
                Err(LookupError::BadIndex(ie)) => ie.index == index && local_at(self.variables@, index) is None,
                Err(LookupError::WrongType(te)) => {
                    &&& local_at(self.variables@, index) matches Some(stored)
                    &&& !(stored is Short)
                    &&& te.wanted_type@ == "Short"@
                    &&& te.actual_type@ == variable_kind_name(stored)
                },
            },
    {
        if (index as usize) < self.variables.len() {
            match &self.variables[index as usize] {
                Some(Variable::Short(itm)) => Ok(*itm),
                Some(other) => Err(LookupError::WrongType(TypeError {
                    wanted_type: String::from_str("Short"),
                    actual_type: variable_name(other),
                })),
                None => Err(LookupError::BadIndex(IndexError { index })),
            }
        } else {
            Err(LookupError::BadIndex(IndexError { index }))
        }
    }

    /// Returns the `Double` local at `index`, or says why there is
    /// none: an absent, reserved or out-of-range slot, or a local of
    /// another kind.
    pub fn get_double(&self, index: u16) -> (r: Result<Double, LookupError>)
        ensures
            match r {
                Ok(v) => local_at(self.variables@, index) == Some(Variable::Double(v)),
                Err(LookupError::BadIndex(ie)) => ie.index == index && local_at(self.variables@, index) is None,
                Err(LookupError::WrongType(te)) => {
                    &&& local_at(self.variables@, index) matches Some(stored)
                    &&& !(stored is Double)
                    &&& te.wanted_type@ == "Double"@
                    &&& te.actual_type@ == variable_kind_name(stored)
                },
            },
    {
        if (index as usize) < self.variables.len() {
            match &self.variables[index as usize] {
                Some(Variable::Double(itm)) => Ok(*itm),
                Some(other) => Err(LookupError::WrongType(TypeError {
                    wanted_type: String::from_str("Double"),
                    actual_type: variable_name(other),
                })),
                None => Err(LookupError::BadIndex(IndexError { index })),
            }
        } else {
            Err(LookupError::BadIndex(IndexError { index }))
        }
    }

    /// Returns the `ReturnAddress` local at `index`, or says why there is
    /// none: an absent, reserved or out-of-range slot, or a local of
    /// another kind.
    pub fn get_return_address(&self, index: u16) -> (r: Result<ReturnAddress, LookupError>)
        ensures
            match r {
                Ok(v) => local_at(self.variables@, index) == Some(Variable::ReturnAddress(v)),
                Err(LookupError::BadIndex(ie)) => ie.index == index && local_at(self.variables@, index) is None,
                Err(LookupError::WrongType(te)) => {
                    &&& local_at(self.variables@, index) matches Some(stored)
                    &&& !(stored is ReturnAddress)
                    &&& te.wanted_type@ == "ReturnAddress"@
                    &&& te.actual_type@ == variable_kind_name(stored)
                },
            },
    {
        if (index as usize) < self.variables.len() {
            match &self.variables[index as usize] {
                Some(Variable::ReturnAddress(itm)) => Ok(*itm),
                Some(other) => Err(LookupError::WrongType(TypeError {
                    wanted_type: String::from_str("ReturnAddress"),
                    actual_type: variable_name(other),
                })),
                None => Err(LookupError::BadIndex(IndexError { index })),
            }
        } else {
            Err(LookupError::BadIndex(IndexError { index }))
        }
    }

    /// Returns the `ClassReference` local at `index`, or says why there is
    /// none: an absent, reserved or out-of-range slot, or a local of
    /// another kind.
    pub fn get_class_reference(&self, index: u16) -> (r: Result<ClassReference, LookupError>)
        ensures
            match r {
                Ok(v) => (local_at(self.variables@, index) matches Some(Variable::ClassReference(stored))
                    && v.value@ == stored.value@),
                Err(LookupError::BadIndex(ie)) => ie.index == index && local_at(self.variables@, index) is None,
                Err(LookupError::WrongType(te)) => {
                    &&& local_at(self.variables@, index) matches Some(stored)
                    &&& !(stored is ClassReference)
                    &&& te.wanted_type@ == "ClassReference"@
                    &&& te.actual_type@ == variable_kind_name(stored)
                },
            },
    {
        if (index as usize) < self.variables.len() {
            match &self.variables[index as usize] {
                Some(Variable::ClassReference(itm)) => Ok(itm.clone()),
                Some(other) => Err(LookupError::WrongType(TypeError {
                    wanted_type: String::from_str("ClassReference"),
                    actual_type: variable_name(other),
                })),
                None => Err(LookupError::BadIndex(IndexError { index })),
            }
        } else {
            Err(LookupError::BadIndex(IndexError { index }))
        }
    }

    /// Returns the `ArrayReference` local at `index`, or says why there is
    /// none: an absent, reserved or out-of-range slot, or a local of
    /// another kind.
    pub fn get_array_reference(&self, index: u16) -> (r: Result<ArrayReference, LookupError>)
        ensures
            match r {
                Ok(v) => (local_at(self.variables@, index) matches Some(Variable::ArrayReference(stored))
                    && v.dimensions == stored.dimensions && v.class_name@ == stored.class_name@),
                Err(LookupError::BadIndex(ie)) => ie.index == index && local_at(self.variables@, index) is None,
                Err(LookupError::WrongType(te)) => {
                    &&& local_at(self.variables@, index) matches Some(stored)
                    &&& !(stored is ArrayReference)
                    &&& te.wanted_type@ == "ArrayReference"@
                    &&& te.actual_type@ == variable_kind_name(stored)
                },
            },
    {
        if (index as usize) < self.variables.len() {
            match &self.variables[index as usize] {
                Some(Variable::ArrayReference(itm)) => Ok(itm.clone()),
                Some(other) => Err(LookupError::WrongType(TypeError {
                    wanted_type: String::from_str("ArrayReference"),
                    actual_type: variable_name(other),
                })),
                None => Err(LookupError::BadIndex(IndexError { index })),
            }
        } else {
            Err(LookupError::BadIndex(IndexError { index }))
        }
    }
}

/// The slot layout after one write: the table grown with absent slots
/// to fit, the value at its slot, and, for a long or double, the
/// following slot cleared.
pub open spec fn locals_set(s: Seq<Option<Variable>>, index: u16, value: Variable) -> Seq<
    Option<Variable>,
> {
    let width: int = if is_category_2(value) { 2 } else { 1 };
    let n = if s.len() >= index + width { s.len() as int } else { index + width };
    let grown = s + Seq::new((n - s.len()) as nat, |j: int| None::<Variable>);
    let written = grown.update(index as int, Some(value));
    if is_category_2(value) {
        written.update(index + 1, None)
    } else {
        written
    }
}

/// True when slot `i` of a layout holds a category-2 value.
pub open spec fn is_wide_at(s: Seq<Option<Variable>>, i: int) -> bool {
    0 <= i < s.len() && (s[i] matches Some(v) && is_category_2(v))
}

/// The reserved-slot rule of the local variable table (JVMS 2.6.1):
/// in the layout built from ordered initial values, each long or
/// double at a slot is followed, in range, by an absent slot, and the
/// layout's length is the value count plus one per category-2 value.
pub proof fn lemma_locals_shape(raw: Seq<Variable>)
    ensures
        locals_of(raw).len() == raw.len() + count_category_2(raw),
        forall|i: int| is_wide_at(locals_of(raw), i)
            ==> i + 1 < locals_of(raw).len() && locals_of(raw)[i + 1] is None,
    decreases raw.len(),
{
    if raw.len() == 0 {
    } else {
        let rest = locals_of(raw.drop_first());
        let cell: Seq<Option<Variable>> = if is_category_2(raw[0]) {
            seq![Some(raw[0]), None]
        } else {
            seq![Some(raw[0])]
        };
        lemma_locals_shape(raw.drop_first());
        assert forall|i: int| is_wide_at(locals_of(raw), i)
            implies i + 1 < locals_of(raw).len() && locals_of(raw)[i + 1] is None by {
            let s = locals_of(raw);
            if i < cell.len() {
                assert(s[i] == cell[i]);
            } else {
                assert(s[i] == rest[i - cell.len()]);
                assert(is_wide_at(rest, i - cell.len()));
            }
        }
    }
}

/// The number of category-2 values in a sequence of initial values.
pub open spec fn count_category_2(raw: Seq<Variable>) -> nat
    decreases raw.len(),
{
    if raw.len() == 0 {
        0
    } else {
        (if is_category_2(raw[0]) { 1 as nat } else { 0 as nat }) + count_category_2(
            raw.drop_first(),
        )
    }
}

/// Appending one initial value appends its slots to the layout.
proof fn lemma_locals_of_push(raw: Seq<Variable>, var: Variable)
    ensures
        locals_of(raw.push(var)) == locals_of(raw) + (if is_category_2(var) {
            seq![Some(var), Option::<Variable>::None]
        } else {
            seq![Some(var)]
        }),
    decreases raw.len(),
{
    let cell: Seq<Option<Variable>> = if is_category_2(var) {
        seq![Some(var), None]
    } else {
        seq![Some(var)]
    };
    if raw.len() == 0 {
        reveal_with_fuel(locals_of, 3);
        assert(raw.push(var) =~= seq![var]);
        assert(raw.push(var)[0] == var);
        assert(raw.push(var).drop_first() =~= Seq::<Variable>::empty());
        assert(locals_of(raw.push(var)) =~= locals_of(raw) + cell);
    } else {
        let f0: Seq<Option<Variable>> = if is_category_2(raw[0]) {
            seq![Some(raw[0]), None]
        } else {
            seq![Some(raw[0])]
        };
        assert(raw.push(var)[0] == raw[0]);
        assert(raw.push(var).drop_first() =~= raw.drop_first().push(var));
        lemma_locals_of_push(raw.drop_first(), var);
        assert(locals_of(raw.drop_first().push(var)) == locals_of(raw.drop_first()) + cell);
        assert(locals_of(raw.push(var)) == f0 + locals_of(raw.drop_first().push(var)));
        assert(locals_of(raw) == f0 + locals_of(raw.drop_first()));
        vstd::seq_lib::lemma_concat_associative(f0, locals_of(raw.drop_first()), cell);
        assert(locals_of(raw.push(var)) == locals_of(raw) + cell);
    }
}

} // verus!
