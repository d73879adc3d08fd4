//! Encoding of the global summary back into a JSON value tree.
//!
//! The encoders are the round-trip counterpart of the decoders: each one
//! ensures that decoding its output yields the encoded value back, so a
//! summary survives an encode–decode cycle unchanged — the law holds even
//! for absent counters, which encode as null and decode as absent again.

use vstd::prelude::*;

use crate::decode::decode_global_summary_spec;
use crate::decode::decode_summary_item_spec;
use crate::io_models::JeedomGlobalSummary;
use crate::io_models::JeedomGlobalSummaryView;
use crate::io_models::JeedomSummary;
use crate::io_models::JeedomSummaryView;
use crate::json::field_of;
use crate::json::lemma_lookup_absent;
use crate::json::lemma_lookup_at;
use crate::json::DecodeError;
use crate::json::JsonValue;

verus! {

/// Encodes one summary category record. Decoding the result yields the
/// record's contents back.
pub fn encode_summary_item(s: &JeedomSummary) -> (r: JsonValue)
    ensures
        decode_summary_item_spec(r) == Ok::<JeedomSummaryView, DecodeError>(s@),
{
    let mut fields: Vec<(String, JsonValue)> = Vec::new();
    fields.push((String::from_str("key"), JsonValue::Text(s.key.clone())));
    fields.push((String::from_str("name"), JsonValue::Text(s.name.clone())));
    fields.push((String::from_str("unit"), JsonValue::Text(s.unit.clone())));
    fields.push(
        (
            String::from_str("value"),
            match s.value {
                Some(n) => JsonValue::UInt(n as u64),
                None => JsonValue::Null,
            },
        ),
    );
    let ghost fs = fields@;
    let r = JsonValue::Object(fields);
    proof {
        reveal_strlit("key");
        reveal_strlit("name");
        reveal_strlit("unit");
        reveal_strlit("value");
        assert("name"@[0] == 'n');
        assert("unit"@[0] == 'u');
        assert(fs.len() == 4);
        assert(fs[0].0@ == "key"@);
        assert(fs[1].0@ == "name"@);
        assert(fs[2].0@ == "unit"@);
        assert(fs[3].0@ == "value"@);
        lemma_lookup_at(fs, "key"@, 0);
        assert forall|k: int| 0 <= k < 1 implies (#[trigger] fs[k]).0@ != "name"@ by {
            assert(k == 0);
        }
        lemma_lookup_at(fs, "name"@, 1);
        assert forall|k: int| 0 <= k < 2 implies (#[trigger] fs[k]).0@ != "unit"@ by {
            if k == 0 {
                assert(fs[k] == fs[0]);
            } else {
                assert(fs[k] == fs[1]);
            }
        }
        lemma_lookup_at(fs, "unit"@, 2);
        assert forall|k: int| 0 <= k < 3 implies (#[trigger] fs[k]).0@ != "value"@ by {
            if k == 0 {
                assert(fs[k] == fs[0]);
            } else if k == 1 {
                assert(fs[k] == fs[1]);
            } else {
                assert(fs[k] == fs[2]);
            }
        }
        lemma_lookup_at(fs, "value"@, 3);
        match s.value {
            Some(n) => {
                assert(n as u64 % 0x1_0000_0000 == n);
            },
            None => {},
        }
    }
    r
}

/// The object key of the global summary's `j`-th field, in the order the
/// encoder writes them.
spec fn key_name(j: int) -> Seq<char> {
    if j == 0 {
        "security"@
    } else if j == 1 {
        "motion"@
    } else if j == 2 {
        "door"@
    } else if j == 3 {
        "windows"@
    } else if j == 4 {
        "shutter"@
    } else if j == 5 {
        "light"@
    } else if j == 6 {
        "outlet"@
    } else if j == 7 {
        "temperature"@
    } else if j == 8 {
        "humidity"@
    } else if j == 9 {
        "luminosity"@
    } else if j == 10 {
        "power"@
    } else {
        "alarm"@
    }
}

/// Encodes the whole global summary. Decoding the result yields every
/// category — and the optional alarm category — back unchanged.
pub fn encode_global_summary(g: &JeedomGlobalSummary) -> (r: JsonValue)
    ensures
        decode_global_summary_spec(r) == Ok::<JeedomGlobalSummaryView, DecodeError>(g@),
{
    let mut fields: Vec<(String, JsonValue)> = Vec::new();
    fields.push((String::from_str("security"), encode_summary_item(&g.security)));
    fields.push((String::from_str("motion"), encode_summary_item(&g.motion)));
    fields.push((String::from_str("door"), encode_summary_item(&g.door)));
    fields.push((String::from_str("windows"), encode_summary_item(&g.windows)));
    fields.push((String::from_str("shutter"), encode_summary_item(&g.shutter)));
    fields.push((String::from_str("light"), encode_summary_item(&g.light)));
    fields.push((String::from_str("outlet"), encode_summary_item(&g.outlet)));
    fields.push((String::from_str("temperature"), encode_summary_item(&g.temperature)));
    fields.push((String::from_str("humidity"), encode_summary_item(&g.humidity)));
    fields.push((String::from_str("luminosity"), encode_summary_item(&g.luminosity)));
    fields.push((String::from_str("power"), encode_summary_item(&g.power)));
    match &g.alarm {
        Some(a) => {
            fields.push((String::from_str("alarm"), encode_summary_item(a)));
        },
        None => {},
    }
    let ghost fs = fields@;
    let r = JsonValue::Object(fields);
    proof {
        reveal_strlit("security");
        reveal_strlit("motion");
        reveal_strlit("door");
        reveal_strlit("windows");
        reveal_strlit("shutter");
        reveal_strlit("light");
        reveal_strlit("outlet");
        reveal_strlit("temperature");
        reveal_strlit("humidity");
        reveal_strlit("luminosity");
        reveal_strlit("power");
        reveal_strlit("alarm");
        assert("security"@[0] == 's');
        assert("motion"@[0] == 'm');
        assert("door"@[0] == 'd');
        assert("windows"@[0] == 'w');
        assert("shutter"@[0] == 's');
        assert("shutter"@[1] == 'h');
        assert("security"@[1] == 'e');
        assert("light"@[0] == 'l');
        assert("outlet"@[0] == 'o');
        assert("temperature"@[0] == 't');
        assert("humidity"@[0] == 'h');
        assert("luminosity"@[0] == 'l');
        assert("power"@[0] == 'p');
        assert("alarm"@[0] == 'a');
        assert(fs[0].0@ == "security"@);
        assert(fs[1].0@ == "motion"@);
        assert(fs[2].0@ == "door"@);
        assert(fs[3].0@ == "windows"@);
        assert(fs[4].0@ == "shutter"@);
        assert(fs[5].0@ == "light"@);
        assert(fs[6].0@ == "outlet"@);
        assert(fs[7].0@ == "temperature"@);
        assert(fs[8].0@ == "humidity"@);
        assert(fs[9].0@ == "luminosity"@);
        assert(fs[10].0@ == "power"@);
        assert(key_name(0) == "security"@);
        assert(key_name(1) == "motion"@);
        assert(key_name(2) == "door"@);
        assert(key_name(3) == "windows"@);
        assert(key_name(4) == "shutter"@);
        assert(key_name(5) == "light"@);
        assert(key_name(6) == "outlet"@);
        assert(key_name(7) == "temperature"@);
        assert(key_name(8) == "humidity"@);
        assert(key_name(9) == "luminosity"@);
        assert(key_name(10) == "power"@);
        assert(key_name(11) == "alarm"@);
        assert forall|k: int, j: int|
            0 <= k < fs.len() && 0 <= j < 12 && k != j implies #[trigger] (fs[k]).0@
                != #[trigger] key_name(j) by {
            if k == 0 {
                assert(fs[k] == fs[0]);
            } else if k == 1 {
                assert(fs[k] == fs[1]);
            } else if k == 2 {
                assert(fs[k] == fs[2]);
            } else if k == 3 {
                assert(fs[k] == fs[3]);
            } else if k == 4 {
                assert(fs[k] == fs[4]);
            } else if k == 5 {
                assert(fs[k] == fs[5]);
            } else if k == 6 {
                assert(fs[k] == fs[6]);
            } else if k == 7 {
                assert(fs[k] == fs[7]);
            } else if k == 8 {
                assert(fs[k] == fs[8]);
            } else if k == 9 {
                assert(fs[k] == fs[9]);
            } else if k == 10 {
                assert(fs[k] == fs[10]);
            } else {
                assert(fs[k] == fs[11]);
            }
        }
        lemma_lookup_at(fs, "security"@, 0);
        lemma_lookup_at(fs, "motion"@, 1);
        lemma_lookup_at(fs, "door"@, 2);
        lemma_lookup_at(fs, "windows"@, 3);
        lemma_lookup_at(fs, "shutter"@, 4);
        lemma_lookup_at(fs, "light"@, 5);
        lemma_lookup_at(fs, "outlet"@, 6);
        lemma_lookup_at(fs, "temperature"@, 7);
        lemma_lookup_at(fs, "humidity"@, 8);
        lemma_lookup_at(fs, "luminosity"@, 9);
        lemma_lookup_at(fs, "power"@, 10);
        match g.alarm {
            Some(_) => {
                lemma_lookup_at(fs, "alarm"@, 11);
                assert(field_of(r, "alarm"@) == Some(fs[11].1));
            },
            None => {
                lemma_lookup_absent(fs, "alarm"@);
            },
        }
    }
    r
}

} // verus!
