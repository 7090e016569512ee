//! The simulation request and its verified reader.
//!
//! A request arrives as one JSON object. The reader walks the parsed document
//! field by field: the two encoded records are required, everything else is
//! optional, the advisor flag defaults to off, and any field of the wrong
//! shape rejects the whole request. The reader's whole outcome — which inputs
//! are accepted, every extracted field, and the exact error message — is
//! stated over the named parse results of the JSON gateway.

use vstd::prelude::*;
use crate::json::{
    json_parse, json_doc, json_is_object, json_object, json_is_null, json_null, json_get,
    json_member, json_as_string, json_text, json_as_i64, json_int, json_as_u64, json_uint,
    json_as_bool, json_truth, json_object_entries, json_entries, json_array_items, json_items,
};
use crate::strings::{prefixed, starts_with};

verus! {

/// One simulation request, as plain values.
#[derive(Debug)]
pub struct SimulationRequest {
    pub network: Option<String>,
    pub envelope_xdr: String,
    pub result_meta_xdr: String,
    pub ledger_entries: Option<Vec<(String, String)>>,
    pub timestamp: Option<i64>,
    pub ledger_sequence: Option<u32>,
    pub wasm_path: Option<String>,
    pub mock_args: Option<Vec<String>>,
    pub profile: Option<bool>,
    pub enable_optimization_advisor: bool,
}

/// The mathematical shape of a request.
pub struct RequestView {
    pub network: Option<Seq<char>>,
    pub envelope_xdr: Seq<char>,
    pub result_meta_xdr: Seq<char>,
    pub ledger_entries: Option<Seq<(Seq<char>, Seq<char>)>>,
    pub timestamp: Option<i64>,
    pub ledger_sequence: Option<u32>,
    pub wasm_path: Option<Seq<char>>,
    pub mock_args: Option<Seq<Seq<char>>>,
    pub profile: Option<bool>,
    pub enable_optimization_advisor: bool,
}

impl View for SimulationRequest {
    type V = RequestView;

    open spec fn view(&self) -> RequestView {
        RequestView {
            network: self.network.deep_view(),
            envelope_xdr: self.envelope_xdr@,
            result_meta_xdr: self.result_meta_xdr@,
            ledger_entries: self.ledger_entries.deep_view(),
            timestamp: self.timestamp,
            ledger_sequence: self.ledger_sequence,
            wasm_path: self.wasm_path.deep_view(),
            mock_args: self.mock_args.deep_view(),
            profile: self.profile,
            enable_optimization_advisor: self.enable_optimization_advisor,
        }
    }
}

/// The document a well-formed text parses to.
pub open spec fn doc_of(text: Seq<char>) -> serde_json::Value
    recommends
        json_doc(text) is Ok,
{
    json_doc(text)->Ok_0
}

/// Reading an optional string member of a document: absent or null count as
/// none; any other non-string shape is a fault.
pub open spec fn opt_str_of(doc: serde_json::Value, name: Seq<char>) -> Result<
    Option<Seq<char>>,
    (),
> {
    match json_member(doc, name) {
        None => Ok(None),
        Some(f) => if json_null(f) {
            Ok(None)
        } else {
            match json_text(f) {
                Some(s) => Ok(Some(s)),
                None => Err(()),
            }
        },
    }
}

/// An optional string field of the text.
pub open spec fn str_fld(text: Seq<char>, name: Seq<char>) -> Result<Option<Seq<char>>, ()> {
    opt_str_of(doc_of(text), name)
}

/// An optional signed-integer field of the text.
pub open spec fn int_fld(text: Seq<char>, name: Seq<char>) -> Result<Option<i64>, ()> {
    match json_member(doc_of(text), name) {
        None => Ok(None),
        Some(f) => if json_null(f) {
            Ok(None)
        } else {
            match json_int(f) {
                Some(t) => Ok(Some(t)),
                None => Err(()),
            }
        },
    }
}

/// An optional unsigned 32-bit field of the text; an unsigned integer out of
/// the 32-bit range is a fault.
pub open spec fn uint_fld(text: Seq<char>, name: Seq<char>) -> Result<Option<u32>, ()> {
    match json_member(doc_of(text), name) {
        None => Ok(None),
        Some(f) => if json_null(f) {
            Ok(None)
        } else {
            match json_uint(f) {
                Some(n) => if n <= 0xffff_ffffu64 {
                    Ok(Some(n as u32))
                } else {
                    Err(())
                },
                None => Err(()),
            }
        },
    }
}

/// An optional boolean field of the text.
pub open spec fn bool_fld(text: Seq<char>, name: Seq<char>) -> Result<Option<bool>, ()> {
    match json_member(doc_of(text), name) {
        None => Ok(None),
        Some(f) => if json_null(f) {
            Ok(None)
        } else {
            match json_truth(f) {
                Some(b) => Ok(Some(b)),
                None => Err(()),
            }
        },
    }
}

/// A boolean flag field of the text that defaults to false when absent and
/// admits nothing but a boolean when present.
pub open spec fn flag_fld(text: Seq<char>, name: Seq<char>) -> Result<bool, ()> {
    match json_member(doc_of(text), name) {
        None => Ok(false),
        Some(f) => match json_truth(f) {
            Some(b) => Ok(b),
            None => Err(()),
        },
    }
}

/// Reading a non-null ledger-entries member: it must be an object whose every
/// value is a string; the encoded pairs come out in the object's order.
pub open spec fn entries_of_value(f: serde_json::Value) -> Result<
    Option<Seq<(Seq<char>, Seq<char>)>>,
    (),
> {
    match json_entries(f) {
        None => Err(()),
        Some(es) => if forall|i: int| 0 <= i < es.len() ==> (#[trigger] json_text(es[i].1)) is Some {
            Ok(Some(Seq::new(es.len(), |i: int| (es[i].0, json_text(es[i].1)->Some_0))))
        } else {
            Err(())
        },
    }
}

/// The ledger-entries field of the text.
pub open spec fn entries_fld(text: Seq<char>) -> Result<Option<Seq<(Seq<char>, Seq<char>)>>, ()> {
    match json_member(doc_of(text), "ledger_entries"@) {
        None => Ok(None),
        Some(f) => if json_null(f) {
            Ok(None)
        } else {
            entries_of_value(f)
        },
    }
}

/// Reading a non-null mock-arguments member: it must be an array whose every
/// item is a string.
pub open spec fn args_of_value(f: serde_json::Value) -> Result<Option<Seq<Seq<char>>>, ()> {
    match json_items(f) {
        None => Err(()),
        Some(items) => if forall|i: int|
            0 <= i < items.len() ==> (#[trigger] json_text(items[i])) is Some {
            Ok(Some(Seq::new(items.len(), |i: int| json_text(items[i])->Some_0)))
        } else {
            Err(())
        },
    }
}

/// The mock-arguments field of the text.
pub open spec fn args_fld(text: Seq<char>) -> Result<Option<Seq<Seq<char>>>, ()> {
    match json_member(doc_of(text), "mock_args"@) {
        None => Ok(None),
        Some(f) => if json_null(f) {
            Ok(None)
        } else {
            args_of_value(f)
        },
    }
}

/// The text is accepted: one JSON object holding the two required encoded
/// records as strings, with every optional field well-shaped.
pub open spec fn request_wf(text: Seq<char>) -> bool {
    &&& json_doc(text) is Ok
    &&& json_object(doc_of(text))
    &&& str_fld(text, "network"@) is Ok
    &&& str_fld(text, "envelope_xdr"@) matches Ok(Some(_))
    &&& str_fld(text, "result_meta_xdr"@) matches Ok(Some(_))
    &&& entries_fld(text) is Ok
    &&& int_fld(text, "timestamp"@) is Ok
    &&& uint_fld(text, "ledger_sequence"@) is Ok
    &&& str_fld(text, "wasm_path"@) is Ok
    &&& args_fld(text) is Ok
    &&& bool_fld(text, "profile"@) is Ok
    &&& flag_fld(text, "enable_optimization_advisor"@) is Ok
}

/// The request an accepted text describes.
pub open spec fn spec_request(text: Seq<char>) -> RequestView
    recommends
        request_wf(text),
{
    RequestView {
        network: str_fld(text, "network"@)->Ok_0,
        envelope_xdr: str_fld(text, "envelope_xdr"@)->Ok_0->Some_0,
        result_meta_xdr: str_fld(text, "result_meta_xdr"@)->Ok_0->Some_0,
        ledger_entries: entries_fld(text)->Ok_0,
        timestamp: int_fld(text, "timestamp"@)->Ok_0,
        ledger_sequence: uint_fld(text, "ledger_sequence"@)->Ok_0,
        wasm_path: str_fld(text, "wasm_path"@)->Ok_0,
        mock_args: args_fld(text)->Ok_0,
        profile: bool_fld(text, "profile"@)->Ok_0,
        enable_optimization_advisor: flag_fld(text, "enable_optimization_advisor"@)->Ok_0,
    }
}

/// The message a rejected text earns, in the reader's checking order: the
/// parser's own text for malformed JSON, otherwise a text naming the
/// offending field.
pub open spec fn request_err_msg(text: Seq<char>) -> Seq<char>
    recommends
        !request_wf(text),
{
    if json_doc(text) is Err {
        json_doc(text)->Err_0
    } else if !json_object(doc_of(text)) {
        "expected a JSON object"@
    } else if str_fld(text, "network"@) is Err {
        "invalid type for field `network`: expected a string"@
    } else if str_fld(text, "envelope_xdr"@) is Err {
        "invalid type for field `envelope_xdr`: expected a string"@
    } else if str_fld(text, "envelope_xdr"@) == Ok::<Option<Seq<char>>, ()>(None) {
        "missing field `envelope_xdr`"@
    } else if str_fld(text, "result_meta_xdr"@) is Err {
        "invalid type for field `result_meta_xdr`: expected a string"@
    } else if str_fld(text, "result_meta_xdr"@) == Ok::<Option<Seq<char>>, ()>(None) {
        "missing field `result_meta_xdr`"@
    } else if entries_fld(text) is Err {
        if json_entries(json_member(doc_of(text), "ledger_entries"@)->Some_0) is None {
            "invalid type for field `ledger_entries`: expected an object"@
        } else {
            "invalid type in field `ledger_entries`: expected a string value"@
        }
    } else if int_fld(text, "timestamp"@) is Err {
        "invalid type for field `timestamp`: expected an integer"@
    } else if uint_fld(text, "ledger_sequence"@) is Err {
        if json_uint(json_member(doc_of(text), "ledger_sequence"@)->Some_0) is None {
            "invalid type for field `ledger_sequence`: expected an unsigned integer"@
        } else {
            "invalid value for field `ledger_sequence`: out of range"@
        }
    } else if str_fld(text, "wasm_path"@) is Err {
        "invalid type for field `wasm_path`: expected a string"@
    } else if args_fld(text) is Err {
        if json_items(json_member(doc_of(text), "mock_args"@)->Some_0) is None {
            "invalid type for field `mock_args`: expected an array"@
        } else {
            "invalid type in field `mock_args`: expected a string"@
        }
    } else if bool_fld(text, "profile"@) is Err {
        "invalid type for field `profile`: expected a boolean"@
    } else {
        "invalid type for field `enable_optimization_advisor`: expected a boolean"@
    }
}

/// An input-format error message.
fn invalid(msg: &str) -> (s: String)
    ensures
        s@ == "Invalid JSON: "@ + msg@,
        starts_with(s@, "Invalid JSON: "@),
{
    prefixed("Invalid JSON: ", msg)
}

/// Read an optional string field; `null` counts as absent.
fn read_opt_string(v: &serde_json::Value, name: &str) -> (r: Result<Option<String>, ()>)
    ensures
        match r {
            Ok(Some(s)) => opt_str_of(*v, name@) == Ok::<Option<Seq<char>>, ()>(Some(s@)),
            Ok(None) => opt_str_of(*v, name@) == Ok::<Option<Seq<char>>, ()>(None),
            Err(()) => opt_str_of(*v, name@) is Err,
        },
{
    match json_get(v, name) {
        None => Ok(None),
        Some(f) => {
            if json_is_null(f) {
                Ok(None)
            } else {
                match json_as_string(f) {
                    Some(s) => Ok(Some(s)),
                    None => Err(()),
                }
            }
        },
    }
}

/// Parse one request out of JSON text.
///
/// An accepted text — one JSON object with the two required encoded records
/// as strings and every optional field well-shaped — yields exactly the
/// request it describes. Malformed JSON is rejected with the parser's own
/// message; a missing required field or a field of the wrong shape is
/// rejected with a message naming it.
pub fn parse_request(text: &str) -> (r: Result<SimulationRequest, String>)
    ensures
        r is Ok <==> request_wf(text@),
        r matches Ok(req) ==> req@ == spec_request(text@),
        r matches Err(msg) ==> msg@ == "Invalid JSON: "@ + request_err_msg(text@),
        r is Err ==> starts_with(r->Err_0@, "Invalid JSON: "@),
        json_doc(text@) is Err ==> r is Err && request_err_msg(text@) == json_doc(text@)->Err_0,
{
    let doc = match json_parse(text) {
        Ok(v) => v,
        Err(e) => {
            return Err(invalid(e.as_str()));
        },
    };
    if !json_is_object(&doc) {
        return Err(invalid("expected a JSON object"));
    }
    let network = match read_opt_string(&doc, "network") {
        Ok(n) => n,
        Err(()) => {
            return Err(invalid("invalid type for field `network`: expected a string"));
        },
    };
    let envelope_xdr = match read_opt_string(&doc, "envelope_xdr") {
        Ok(Some(s)) => s,
        Ok(None) => {
            return Err(invalid("missing field `envelope_xdr`"));
        },
        Err(()) => {
            return Err(invalid("invalid type for field `envelope_xdr`: expected a string"));
        },
    };
    let result_meta_xdr = match read_opt_string(&doc, "result_meta_xdr") {
        Ok(Some(s)) => s,
        Ok(None) => {
            return Err(invalid("missing field `result_meta_xdr`"));
        },
        Err(()) => {
            return Err(invalid("invalid type for field `result_meta_xdr`: expected a string"));
        },
    };
    let ledger_entries = match json_get(&doc, "ledger_entries") {
        None => None,
        Some(f) => {
            if json_is_null(f) {
                None
            } else {
                match json_object_entries(f) {
                    None => {
                        return Err(invalid(
                            "invalid type for field `ledger_entries`: expected an object",
                        ));
                    },
                    Some(entries) => {
                        let ghost ses = json_entries(*f)->Some_0;
                        let mut out: Vec<(String, String)> = Vec::new();
                        let mut i: usize = 0;
                        while i < entries.len()
                            invariant
                                json_doc(text@) == Ok::<serde_json::Value, Seq<char>>(doc),
                                json_object(doc),
                                str_fld(text@, "network"@) is Ok,
                                str_fld(text@, "envelope_xdr"@) matches Ok(Some(_)),
                                str_fld(text@, "result_meta_xdr"@) matches Ok(Some(_)),
                                json_member(doc, "ledger_entries"@) == Some(*f),
                                !json_null(*f),
                                json_entries(*f) == Some(ses),
                                ses.len() == entries@.len(),
                                forall|k: int|
                                    0 <= k < entries@.len() ==> ses[k].0 == (
                                    #[trigger] entries@[k]).0@ && ses[k].1 == entries@[k].1,
                                i <= entries@.len(),
                                out@.len() == i,
                                forall|k: int|
                                    0 <= k < i ==> (#[trigger] json_text(ses[k].1)) is Some,
                                forall|k: int|
                                    0 <= k < i ==> (#[trigger] out@[k]).0@ == ses[k].0
                                        && out@[k].1@ == json_text(ses[k].1)->Some_0,
                            decreases entries@.len() - i,
                        {
                            let key = entries[i].0.clone();
                            match json_as_string(&entries[i].1) {
                                Some(val) => {
                                    out.push((key, val));
                                },
                                None => {
                                    proof {
                                        assert(json_text(ses[i as int].1) is None);
                                        assert(entries_of_value(*f) is Err);
                                    }
                                    return Err(invalid(
                                        "invalid type in field `ledger_entries`: expected a string value",
                                    ));
                                },
                            }
                            i = i + 1;
                        }
                        proof {
                            assert(entries_of_value(*f) == Ok::<
                                Option<Seq<(Seq<char>, Seq<char>)>>,
                                (),
                            >(Some(Seq::new(ses.len(), |k: int| (ses[k].0, json_text(ses[k].1)->Some_0)))));
                            assert(out.deep_view() =~= entries_fld(text@)->Ok_0->Some_0);
                        }
                        Some(out)
                    },
                }
            }
        },
    };
    proof {
        assert(entries_fld(text@) is Ok);
        assert(ledger_entries.deep_view() == entries_fld(text@)->Ok_0);
    }
    let timestamp = match json_get(&doc, "timestamp") {
        None => None,
        Some(f) => {
            if json_is_null(f) {
                None
            } else {
                match json_as_i64(f) {
                    Some(t) => Some(t),
                    None => {
                        return Err(invalid(
                            "invalid type for field `timestamp`: expected an integer",
                        ));
                    },
                }
            }
        },
    };
    let ledger_sequence = match json_get(&doc, "ledger_sequence") {
        None => None,
        Some(f) => {
            if json_is_null(f) {
                None
            } else {
                match json_as_u64(f) {
                    Some(n) => {
                        if n <= 0xffff_ffffu64 {
                            Some(n as u32)
                        } else {
                            return Err(invalid(
                                "invalid value for field `ledger_sequence`: out of range",
                            ));
                        }
                    },
                    None => {
                        return Err(invalid(
                            "invalid type for field `ledger_sequence`: expected an unsigned integer",
                        ));
                    },
                }
            }
        },
    };
    let wasm_path = match read_opt_string(&doc, "wasm_path") {
        Ok(p) => p,
        Err(()) => {
            return Err(invalid("invalid type for field `wasm_path`: expected a string"));
        },
    };
    let mock_args = match json_get(&doc, "mock_args") {
        None => None,
        Some(f) => {
            if json_is_null(f) {
                None
            } else {
                match json_array_items(f) {
                    None => {
                        return Err(invalid("invalid type for field `mock_args`: expected an array"));
                    },
                    Some(items) => {
                        let ghost sis = json_items(*f)->Some_0;
                        let mut args: Vec<String> = Vec::new();
                        let mut i: usize = 0;
                        while i < items.len()
                            invariant
                                json_doc(text@) == Ok::<serde_json::Value, Seq<char>>(doc),
                                json_object(doc),
                                str_fld(text@, "network"@) is Ok,
                                str_fld(text@, "envelope_xdr"@) matches Ok(Some(_)),
                                str_fld(text@, "result_meta_xdr"@) matches Ok(Some(_)),
                                entries_fld(text@) is Ok,
                                int_fld(text@, "timestamp"@) is Ok,
                                uint_fld(text@, "ledger_sequence"@) is Ok,
                                str_fld(text@, "wasm_path"@) is Ok,
                                json_member(doc, "mock_args"@) == Some(*f),
                                !json_null(*f),
                                json_items(*f) == Some(sis),
                                sis.len() == items@.len(),
                                forall|k: int|
                                    0 <= k < items@.len() ==> sis[k] == #[trigger] items@[k],
                                i <= items@.len(),
                                args@.len() == i,
                                forall|k: int| 0 <= k < i ==> (#[trigger] json_text(sis[k])) is Some,
                                forall|k: int|
                                    0 <= k < i ==> (#[trigger] args@[k])@ == json_text(
                                        sis[k],
                                    )->Some_0,
                            decreases items@.len() - i,
                        {
                            match json_as_string(&items[i]) {
                                Some(s) => {
                                    args.push(s);
                                },
                                None => {
                                    proof {
                                        assert(json_text(sis[i as int]) is None);
                                        assert(args_of_value(*f) is Err);
                                    }
                                    return Err(invalid(
                                        "invalid type in field `mock_args`: expected a string",
                                    ));
                                },
                            }
                            i = i + 1;
                        }
                        proof {
                            assert(args_of_value(*f) == Ok::<Option<Seq<Seq<char>>>, ()>(
                                Some(Seq::new(sis.len(), |k: int| json_text(sis[k])->Some_0)),
                            ));
                            assert(args.deep_view() =~= args_fld(text@)->Ok_0->Some_0);
                        }
                        Some(args)
                    },
                }
            }
        },
    };
    proof {
        assert(args_fld(text@) is Ok);
        assert(mock_args.deep_view() == args_fld(text@)->Ok_0);
    }
    let profile = match json_get(&doc, "profile") {
        None => None,
        Some(f) => {
            if json_is_null(f) {
                None
            } else {
                match json_as_bool(f) {
                    Some(b) => Some(b),
                    None => {
                        return Err(invalid("invalid type for field `profile`: expected a boolean"));
                    },
                }
            }
        },
    };
    let enable_optimization_advisor = match json_get(&doc, "enable_optimization_advisor") {
        None => false,
        Some(f) => {
            match json_as_bool(f) {
                Some(b) => b,
                None => {
                    return Err(invalid(
                        "invalid type for field `enable_optimization_advisor`: expected a boolean",
                    ));
                },
            }
        },
    };
    Ok(SimulationRequest {
        network,
        envelope_xdr,
        result_meta_xdr,
        ledger_entries,
        timestamp,
        ledger_sequence,
        wasm_path,
        mock_args,
        profile,
        enable_optimization_advisor,
    })
}

} // verus!
