//! How much the WebAssembly of the client is optimized.
use vstd::prelude::*;
use crate::text::str_eq;

verus! {

/// A level of WebAssembly optimization.
#[derive(Debug, Clone, Copy, PartialEq, Eq, Structural)]
pub enum WasmOptimizationLevel {
    Size,
    SizeAggressive,
    Level0,
    Level1,
    Level2,
    Level3,
    Level4,
}

/// The name of a level on the command line.
pub open spec fn spec_opt_level_name(l: WasmOptimizationLevel) -> Seq<char> {
    match l {
        WasmOptimizationLevel::Size => "s"@,
        WasmOptimizationLevel::SizeAggressive => "z"@,
        WasmOptimizationLevel::Level0 => "0"@,
        WasmOptimizationLevel::Level1 => "1"@,
        WasmOptimizationLevel::Level2 => "2"@,
        WasmOptimizationLevel::Level3 => "3"@,
        WasmOptimizationLevel::Level4 => "4"@,
    }
}

/// The level a text names, if any.
pub open spec fn spec_parse_opt_level(s: Seq<char>) -> Option<WasmOptimizationLevel> {
    if s == "s"@ {
        Some(WasmOptimizationLevel::Size)
    } else if s == "z"@ {
        Some(WasmOptimizationLevel::SizeAggressive)
    } else if s == "0"@ {
        Some(WasmOptimizationLevel::Level0)
    } else if s == "1"@ {
        Some(WasmOptimizationLevel::Level1)
    } else if s == "2"@ {
        Some(WasmOptimizationLevel::Level2)
    } else if s == "3"@ {
        Some(WasmOptimizationLevel::Level3)
    } else if s == "4"@ {
        Some(WasmOptimizationLevel::Level4)
    } else {
        None
    }
}

/// The flag of the optimizer for a level.
pub open spec fn spec_opt_flag(l: WasmOptimizationLevel) -> Seq<char> {
    "-O"@ + spec_opt_level_name(l)
}

impl WasmOptimizationLevel {
    /// The level a text names.
    pub fn from_str(s: &str) -> (r: Result<WasmOptimizationLevel, String>)
        ensures
            match spec_parse_opt_level(s@) {
                Some(l) => r == Ok::<WasmOptimizationLevel, String>(l),
                None => r matches Err(m) && m@ == "Invalid wasm optimization level: "@ + s@,
            },
    {
        if str_eq(s, "s") {
            Ok(WasmOptimizationLevel::Size)
        } else if str_eq(s, "z") {
            Ok(WasmOptimizationLevel::SizeAggressive)
        } else if str_eq(s, "0") {
            Ok(WasmOptimizationLevel::Level0)
        } else if str_eq(s, "1") {
            Ok(WasmOptimizationLevel::Level1)
        } else if str_eq(s, "2") {
            Ok(WasmOptimizationLevel::Level2)
        } else if str_eq(s, "3") {
            Ok(WasmOptimizationLevel::Level3)
        } else if str_eq(s, "4") {
            Ok(WasmOptimizationLevel::Level4)
        } else {
            let mut m = String::from_str("Invalid wasm optimization level: ");
            m.append(s);
            Err(m)
        }
    }

    /// The flag of the optimizer for this level, such as `-Oz`.
    pub fn to_string(&self) -> (r: String)
        ensures
            r@ == spec_opt_flag(*self),
    {
        let name = match self {
            WasmOptimizationLevel::Size => "s",
            WasmOptimizationLevel::SizeAggressive => "z",
            WasmOptimizationLevel::Level0 => "0",
            WasmOptimizationLevel::Level1 => "1",
            WasmOptimizationLevel::Level2 => "2",
            WasmOptimizationLevel::Level3 => "3",
            WasmOptimizationLevel::Level4 => "4",
        };
        let mut s = String::from_str("-O");
        s.append(name);
        s
    }
}

/// Reading the name of a level gives the level back.
pub proof fn lemma_opt_level_roundtrip(l: WasmOptimizationLevel)
    ensures
        spec_parse_opt_level(spec_opt_level_name(l)) == Some(l),
{
    reveal_strlit("s");
    reveal_strlit("z");
    reveal_strlit("0");
    reveal_strlit("1");
    reveal_strlit("2");
    reveal_strlit("3");
    reveal_strlit("4");
    assert("s"@ =~= seq!['s']);
    assert("z"@ =~= seq!['z']);
    assert("0"@ =~= seq!['0']);
    assert("1"@ =~= seq!['1']);
    assert("2"@ =~= seq!['2']);
    assert("3"@ =~= seq!['3']);
    assert("4"@ =~= seq!['4']);
    let n = spec_opt_level_name(l);
    assert(n.len() == 1);
    assert("s"@[0] == 's' && "z"@[0] == 'z' && "0"@[0] == '0' && "1"@[0] == '1');
    assert("2"@[0] == '2' && "3"@[0] == '3' && "4"@[0] == '4');
}

} // verus!
