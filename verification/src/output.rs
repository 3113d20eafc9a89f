//! The result types a caller may ask a remote run to produce.
use vstd::prelude::*;
use crate::text::same_text;

verus! {

/// Result type requested for a remote run, named in calls by its Rust spelling.
#[derive(Clone, Copy, Debug, PartialEq, Eq, Structural)]
pub enum OutputKind {
    I32,
    F32,
    Str,
    VecI32,
    VecF32,
    VecVecI32,
    VecVecF32,
}

/// The name by which a caller requests each kind.
pub open spec fn kind_name(k: OutputKind) -> Seq<char> {
    match k {
        OutputKind::I32 => "i32"@,
        OutputKind::F32 => "f32"@,
        OutputKind::Str => "String"@,
        OutputKind::VecI32 => "Vec<i32>"@,
        OutputKind::VecF32 => "Vec<f32>"@,
        OutputKind::VecVecI32 => "Vec<Vec<i32>>"@,
        OutputKind::VecVecF32 => "Vec<Vec<f32>>"@,
    }
}

/// The number that stands for each kind in a run request.
pub open spec fn kind_code(k: OutputKind) -> i16 {
    match k {
        OutputKind::I32 => 1,
        OutputKind::F32 => 2,
        OutputKind::Str => 3,
        OutputKind::VecI32 => 4,
        OutputKind::VecF32 => 5,
        OutputKind::VecVecI32 => 6,
        OutputKind::VecVecF32 => 7,
    }
}

/// The kind a name requests, if it is one of the supported names.
pub open spec fn kind_of_name(name: Seq<char>) -> Option<OutputKind> {
    if name == "i32"@ {
        Some(OutputKind::I32)
    } else if name == "f32"@ {
        Some(OutputKind::F32)
    } else if name == "String"@ {
        Some(OutputKind::Str)
    } else if name == "Vec<i32>"@ {
        Some(OutputKind::VecI32)
    } else if name == "Vec<f32>"@ {
        Some(OutputKind::VecF32)
    } else if name == "Vec<Vec<i32>>"@ {
        Some(OutputKind::VecVecI32)
    } else if name == "Vec<Vec<f32>>"@ {
        Some(OutputKind::VecVecF32)
    } else {
        None
    }
}

impl OutputKind {
    /// The number sent for this kind.
    pub fn code(self) -> (c: i16)
        ensures
            c == kind_code(self),
    {
        match self {
            OutputKind::I32 => 1,
            OutputKind::F32 => 2,
            OutputKind::Str => 3,
            OutputKind::VecI32 => 4,
            OutputKind::VecF32 => 5,
            OutputKind::VecVecI32 => 6,
            OutputKind::VecVecF32 => 7,
        }
    }
}

/// The kind that `name` requests, or `None` for an unsupported name.
pub fn output_kind(name: &str) -> (r: Option<OutputKind>)
    ensures
        r == kind_of_name(name@),
{
    if same_text(name, "i32") {
        Some(OutputKind::I32)
    } else if same_text(name, "f32") {
        Some(OutputKind::F32)
    } else if same_text(name, "String") {
        Some(OutputKind::Str)
    } else if same_text(name, "Vec<i32>") {
        Some(OutputKind::VecI32)
    } else if same_text(name, "Vec<f32>") {
        Some(OutputKind::VecF32)
    } else if same_text(name, "Vec<Vec<i32>>") {
        Some(OutputKind::VecVecI32)
    } else if same_text(name, "Vec<Vec<f32>>") {
        Some(OutputKind::VecVecF32)
    } else {
        None
    }
}

/// Every kind is requested by its own name: reading a kind's name gives the
/// kind back.
pub proof fn lemma_kind_name_roundtrip(k: OutputKind)
    ensures
        kind_of_name(kind_name(k)) == Some(k),
{
    reveal_strlit("i32");
    reveal_strlit("f32");
    reveal_strlit("String");
    reveal_strlit("Vec<i32>");
    reveal_strlit("Vec<f32>");
    reveal_strlit("Vec<Vec<i32>>");
    reveal_strlit("Vec<Vec<f32>>");
    let names = seq!["i32"@, "f32"@, "String"@, "Vec<i32>"@, "Vec<f32>"@, "Vec<Vec<i32>>"@, "Vec<Vec<f32>>"@];
    assert("i32"@.len() == 3 && "f32"@.len() == 3 && "String"@.len() == 6);
    assert("Vec<i32>"@.len() == 8 && "Vec<f32>"@.len() == 8);
    assert("Vec<Vec<i32>>"@.len() == 13 && "Vec<Vec<f32>>"@.len() == 13);
    assert("i32"@[0] != "f32"@[0]);
    assert("Vec<i32>"@[4] != "Vec<f32>"@[4]);
    assert("Vec<Vec<i32>>"@[8] != "Vec<Vec<f32>>"@[8]);
    assert forall|i: int, j: int| 0 <= i < j < 7 implies names[i] != names[j] by {
        if names[i].len() == names[j].len() {
            if i == 0 {
                assert(names[i][0] != names[j][0]);
            } else if i == 3 {
                assert(names[i][4] != names[j][4]);
            } else {
                assert(names[i][8] != names[j][8]);
            }
        }
    }
}

/// Distinct kinds are sent as distinct numbers.
pub proof fn lemma_kind_code_injective(a: OutputKind, b: OutputKind)
    ensures
        kind_code(a) == kind_code(b) ==> a == b,
{
}

/// The supported result-type names, in the order of their codes 1 to 7.
pub open spec fn supported_names() -> Seq<Seq<char>> {
    seq!["i32"@, "f32"@, "String"@, "Vec<i32>"@, "Vec<f32>"@, "Vec<Vec<i32>>"@, "Vec<Vec<f32>>"@]
}

/// The `i`-th supported name (from 0) requests a kind, and that kind is sent as
/// the number `i + 1`; any other name requests none.
pub proof fn lemma_codes_follow_names(i: int, name: Seq<char>)
    requires
        0 <= i < 7,
    ensures
        kind_of_name(supported_names()[i]) is Some,
        kind_code(kind_of_name(supported_names()[i])->Some_0) == i + 1,
        !supported_names().contains(name) ==> kind_of_name(name) is None,
{
    reveal_strlit("i32");
    reveal_strlit("f32");
    reveal_strlit("String");
    reveal_strlit("Vec<i32>");
    reveal_strlit("Vec<f32>");
    reveal_strlit("Vec<Vec<i32>>");
    reveal_strlit("Vec<Vec<f32>>");
    let names = supported_names();
    assert("i32"@.len() == 3 && "f32"@.len() == 3 && "String"@.len() == 6);
    assert("Vec<i32>"@.len() == 8 && "Vec<f32>"@.len() == 8);
    assert("Vec<Vec<i32>>"@.len() == 13 && "Vec<Vec<f32>>"@.len() == 13);
    assert("i32"@[0] != "f32"@[0]);
    assert("Vec<i32>"@[4] != "Vec<f32>"@[4]);
    assert("Vec<Vec<i32>>"@[8] != "Vec<Vec<f32>>"@[8]);
    if !names.contains(name) {
        assert(name != names[0] && name != names[1] && name != names[2] && name != names[3]);
        assert(name != names[4] && name != names[5] && name != names[6]);
    }
}

} // verus!
