//! Runtime values of the procedure mini-language and the variable store.

use vstd::prelude::*;

verus! {

/// A value exchanged between a caller and a procedure instance, or held in a
/// variable slot. Composite `Pair` and `Triple` values carry the packed
/// arguments of the two- and three-parameter entry points; `Nothing` and
/// `Just` stand for an absent or present optional value.
#[derive(Debug, PartialEq, Eq)]
pub enum Value {
    Unit,
    Bool(bool),
    Int(u32),
    Nothing,
    Just(Box<Value>),
    Pair(Box<Value>, Box<Value>),
    Triple(Box<Value>, Box<Value>, Box<Value>),
}

impl Clone for Value {
    fn clone(&self) -> (r: Self)
        ensures
            r == self,
        decreases self,
    {
        match self {
            Value::Unit => Value::Unit,
            Value::Bool(b) => Value::Bool(*b),
            Value::Int(n) => Value::Int(*n),
            Value::Nothing => Value::Nothing,
            Value::Just(v) => Value::Just(Box::new((**v).clone())),
            Value::Pair(a, b) => Value::Pair(Box::new((**a).clone()), Box::new((**b).clone())),
            Value::Triple(a, b, c) => Value::Triple(
                Box::new((**a).clone()),
                Box::new((**b).clone()),
                Box::new((**c).clone()),
            ),
        }
    }
}

/// The variable store of a procedure instance: eight slots, addressed by
/// index. Parameters occupy the lowest slots; locals live above them. A read
/// outside the store yields `Unit` and a write outside it changes nothing.
#[derive(Debug, PartialEq, Eq)]
pub struct Env {
    pub s0: Value,
    pub s1: Value,
    pub s2: Value,
    pub s3: Value,
    pub s4: Value,
    pub s5: Value,
    pub s6: Value,
    pub s7: Value,
}

impl Env {
    /// The store every procedure instance starts from: all slots `Unit`.
    pub open spec fn initial() -> Env {
        Env {
            s0: Value::Unit,
            s1: Value::Unit,
            s2: Value::Unit,
            s3: Value::Unit,
            s4: Value::Unit,
            s5: Value::Unit,
            s6: Value::Unit,
            s7: Value::Unit,
        }
    }

    /// Build the initial store.
    pub fn empty() -> (r: Env)
        ensures
            r == Env::initial(),
    {
        Env {
            s0: Value::Unit,
            s1: Value::Unit,
            s2: Value::Unit,
            s3: Value::Unit,
            s4: Value::Unit,
            s5: Value::Unit,
            s6: Value::Unit,
            s7: Value::Unit,
        }
    }

    /// The value held in slot `i`; `Unit` for an index outside the store.
    pub open spec fn read(self, i: u8) -> Value {
        if i == 0 {
            self.s0
        } else if i == 1 {
            self.s1
        } else if i == 2 {
            self.s2
        } else if i == 3 {
            self.s3
        } else if i == 4 {
            self.s4
        } else if i == 5 {
            self.s5
        } else if i == 6 {
            self.s6
        } else if i == 7 {
            self.s7
        } else {
            Value::Unit
        }
    }

    /// The store after writing `v` to slot `i`; unchanged for an index
    /// outside the store.
    pub open spec fn write(self, i: u8, v: Value) -> Env {
        if i == 0 {
            Env { s0: v, ..self }
        } else if i == 1 {
            Env { s1: v, ..self }
        } else if i == 2 {
            Env { s2: v, ..self }
        } else if i == 3 {
            Env { s3: v, ..self }
        } else if i == 4 {
            Env { s4: v, ..self }
        } else if i == 5 {
            Env { s5: v, ..self }
        } else if i == 6 {
            Env { s6: v, ..self }
        } else if i == 7 {
            Env { s7: v, ..self }
        } else {
            self
        }
    }

    pub fn get(&self, i: u8) -> (r: Value)
        ensures
            r == self.read(i),
    {
        if i == 0 {
            self.s0.clone()
        } else if i == 1 {
            self.s1.clone()
        } else if i == 2 {
            self.s2.clone()
        } else if i == 3 {
            self.s3.clone()
        } else if i == 4 {
            self.s4.clone()
        } else if i == 5 {
            self.s5.clone()
        } else if i == 6 {
            self.s6.clone()
        } else if i == 7 {
            self.s7.clone()
        } else {
            Value::Unit
        }
    }

    pub fn set(&mut self, i: u8, v: Value)
        ensures
            *final(self) == old(self).write(i, v),
    {
        if i == 0 {
            self.s0 = v;
        } else if i == 1 {
            self.s1 = v;
        } else if i == 2 {
            self.s2 = v;
        } else if i == 3 {
            self.s3 = v;
        } else if i == 4 {
            self.s4 = v;
        } else if i == 5 {
            self.s5 = v;
        } else if i == 6 {
            self.s6 = v;
        } else if i == 7 {
            self.s7 = v;
        }
    }
}

} // verus!
