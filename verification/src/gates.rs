//! Two-input logic gates.

use crate::text::{lowercase, trimmed};
use vstd::prelude::*;

verus! {

/// A gate with its two inputs set.
pub trait GateLogic {
    /// The truth value that comes out.
    spec fn value(&self) -> bool;

    /// Computes what comes out.
    fn output(&self) -> (out: bool)
        ensures
            out == self.value(),
    ;
}

/// True when both inputs are true.
pub struct AndGate {
    pub a: bool,
    pub b: bool,
}

/// True when at least one input is true.
pub struct OrGate {
    pub a: bool,
    pub b: bool,
}

/// True when the inputs differ.
pub struct XorGate {
    pub a: bool,
    pub b: bool,
}

/// False only when both inputs are true.
pub struct NandGate {
    pub a: bool,
    pub b: bool,
}

/// True only when both inputs are false.
pub struct NorGate {
    pub a: bool,
    pub b: bool,
}

impl GateLogic for AndGate {
    open spec fn value(&self) -> bool {
        self.a && self.b
    }

    fn output(&self) -> (out: bool) {
        self.a && self.b
    }
}

impl GateLogic for OrGate {
    open spec fn value(&self) -> bool {
        self.a || self.b
    }

    fn output(&self) -> (out: bool) {
        self.a || self.b
    }
}

impl GateLogic for XorGate {
    open spec fn value(&self) -> bool {
        self.a != self.b
    }

    fn output(&self) -> (out: bool) {
        self.a ^ self.b
    }
}

impl GateLogic for NandGate {
    open spec fn value(&self) -> bool {
        !(self.a && self.b)
    }

    fn output(&self) -> (out: bool) {
        !(self.a && self.b)
    }
}

impl GateLogic for NorGate {
    open spec fn value(&self) -> bool {
        !(self.a || self.b)
    }

    fn output(&self) -> (out: bool) {
        !(self.a || self.b)
    }
}

/// Whether `name` is one of the five gate names, in lower case.
pub open spec fn is_gate_name(name: Seq<char>) -> bool {
    name == "and"@ || name == "or"@ || name == "xor"@ || name == "nand"@ || name == "nor"@
}

/// What a gate called `name` puts out for the inputs `a` and `b`. The names
/// are matched exactly, so upper case gives `None`.
pub open spec fn gate_output(name: Seq<char>, a: bool, b: bool) -> Option<bool> {
    if name == "and"@ {
        Some(a && b)
    } else if name == "or"@ {
        Some(a || b)
    } else if name == "xor"@ {
        Some(a != b)
    } else if name == "nand"@ {
        Some(!(a && b))
    } else if name == "nor"@ {
        Some(!(a || b))
    } else {
        None
    }
}

/// Builds a gate of the kind `gate_type` with the inputs `a` and `b`; `None`
/// for any other name.
pub fn create_gate(gate_type: &str, a: bool, b: bool) -> (gate: Option<Box<dyn GateLogic>>)
    ensures
        match gate {
            Some(g) => gate_output(gate_type@, a, b) == Some(g.value()),
            None => gate_output(gate_type@, a, b) is None,
        },
{
    if gate_type.eq("and") {
        Some(Box::new(AndGate { a, b }))
    } else if gate_type.eq("or") {
        Some(Box::new(OrGate { a, b }))
    } else if gate_type.eq("xor") {
        Some(Box::new(XorGate { a, b }))
    } else if gate_type.eq("nand") {
        Some(Box::new(NandGate { a, b }))
    } else if gate_type.eq("nor") {
        Some(Box::new(NorGate { a, b }))
    } else {
        None
    }
}

/// Reads a gate name from a line of input: white space around it is dropped
/// and upper case accepted. The name comes back in lower case; `None` where
/// the line names no gate.
pub fn parse_gate_name(input: &str) -> (name: Option<String>)
    ensures
        match name {
            Some(n) => n@ == lowercase(trimmed(input@)) && is_gate_name(n@),
            None => !is_gate_name(lowercase(trimmed(input@))),
        },
{
    let name = input.trim().to_lowercase();
    if names_gate(name.as_str()) {
        Some(name)
    } else {
        None
    }
}

/// Whether `word`, taken as it is, is one of the five gate names.
pub fn names_gate(word: &str) -> (known: bool)
    ensures
        known == is_gate_name(word@),
{
    word.eq("and") || word.eq("or") || word.eq("xor") || word.eq("nand") || word.eq("nor")
}

/// The input value that a line of input gives: `1` is true, `0` is false.
pub open spec fn bit_of(word: Seq<char>) -> Option<bool> {
    if word == "1"@ {
        Some(true)
    } else if word == "0"@ {
        Some(false)
    } else {
        None
    }
}

/// The input value that `word` gives, taken as it is.
pub fn bit_from_word(word: &str) -> (bit: Option<bool>)
    ensures
        bit == bit_of(word@),
{
    if word.eq("1") {
        Some(true)
    } else if word.eq("0") {
        Some(false)
    } else {
        None
    }
}

/// Reads an input value from a line of input, white space around it
/// dropped; `None` where the line is neither `1` nor `0`.
pub fn parse_bit(input: &str) -> (bit: Option<bool>)
    ensures
        bit == bit_of(trimmed(input@)),
{
    bit_from_word(input.trim())
}

} // verus!
