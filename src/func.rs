use crate::column::{promoted, TextKind};
use vstd::prelude::*;

verus! {

/// The logical type of an argument that the padding function may take.
#[derive(Clone, Copy, PartialEq, Eq, Structural, Debug)]
pub enum ArgType {
    Text(TextKind),
    Int64,
}

/// An accepted argument list: text and a 64-bit integer, then optionally
/// text again, each text of any storage kind.
pub open spec fn supported_types(t: Seq<ArgType>) -> bool {
    &&& t.len() == 2 || t.len() == 3
    &&& t[0] is Text
    &&& t[1] is Int64
    &&& t.len() == 3 ==> t[2] is Text
}

/// The position of an accepted argument list in the signature that
/// `RPadFunc::new` builds: grouped by the source kind, the two-argument form
/// first within each group.
pub open spec fn signature_index(t: Seq<ArgType>) -> int {
    let group = match t[0] {
        ArgType::Text(TextKind::Utf8View) => 0int,
        ArgType::Text(TextKind::Utf8) => 1,
        _ => 2,
    };
    let within = if t.len() == 2 {
        0int
    } else {
        match t[2] {
            ArgType::Text(TextKind::Utf8View) => 1int,
            ArgType::Text(TextKind::Utf8) => 2,
            _ => 3,
        }
    };
    group * 4 + within
}

/// The right-padding function as the query engine sees it: its name and the
/// argument types it accepts.
#[derive(Debug)]
pub struct RPadFunc {
    pub signature: Vec<Vec<ArgType>>,
}

impl RPadFunc {
    /// The function with its accepted argument lists, each listed once.
    pub fn new() -> (r: Self)
        ensures
            r.signature@.len() == 12,
            forall|i: int|
                0 <= i < r.signature@.len() ==> supported_types(#[trigger] r.signature@[i]@),
            forall|t: Seq<ArgType>|
                supported_types(t) ==> (#[trigger] r.signature@[signature_index(t)])@ == t,
    {
        let v = TextKind::Utf8View;
        let n = TextKind::Utf8;
        let w = TextKind::LargeUtf8;
        let i = ArgType::Int64;
        let signature = vec![
            vec![ArgType::Text(v), i],
            vec![ArgType::Text(v), i, ArgType::Text(v)],
            vec![ArgType::Text(v), i, ArgType::Text(n)],
            vec![ArgType::Text(v), i, ArgType::Text(w)],
            vec![ArgType::Text(n), i],
            vec![ArgType::Text(n), i, ArgType::Text(v)],
            vec![ArgType::Text(n), i, ArgType::Text(n)],
            vec![ArgType::Text(n), i, ArgType::Text(w)],
            vec![ArgType::Text(w), i],
            vec![ArgType::Text(w), i, ArgType::Text(v)],
            vec![ArgType::Text(w), i, ArgType::Text(n)],
            vec![ArgType::Text(w), i, ArgType::Text(w)],
        ];
        assert forall|t: Seq<ArgType>| supported_types(t) implies (
        #[trigger] signature@[signature_index(t)])@ == t by {
            if t.len() == 2 {
                assert(t =~= seq![t[0], t[1]]);
            } else {
                assert(t =~= seq![t[0], t[1], t[2]]);
            }
        }
        RPadFunc { signature }
    }

    /// The name under which the function is called.
    pub fn name(&self) -> (r: &'static str)
        ensures
            r@ == "rpad"@,
    {
        "rpad"
    }

    /// The storage kind of the result for an accepted argument list, `None`
    /// for any other list.
    pub fn return_type(&self, arg_types: &Vec<ArgType>) -> (r: Option<TextKind>)
        ensures
            !supported_types(arg_types@) ==> r is None,
            supported_types(arg_types@) ==> r == Some(
                promoted(
                    arg_types@[0]->Text_0,
                    if arg_types@.len() == 3 {
                        Some(arg_types@[2]->Text_0)
                    } else {
                        None
                    },
                ),
            ),
    {
        if arg_types.len() != 2 && arg_types.len() != 3 {
            return None;
        }
        let fill: Option<TextKind> = if arg_types.len() == 3 {
            match arg_types[2] {
                ArgType::Text(k) => Some(k),
                ArgType::Int64 => {
                    return None;
                },
            }
        } else {
            None
        };
        match (arg_types[0], arg_types[1]) {
            (ArgType::Text(k), ArgType::Int64) => Some(crate::column::promote(k, fill)),
            _ => None,
        }
    }
}

} // verus!
