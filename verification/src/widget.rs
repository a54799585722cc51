//! A small ready-made payload type: one boolean switch.
//!
//! It shows what an implementor of [`ConfigData`] owes: a canonical
//! pretty-printed encoding, a decoding that also accepts the compact
//! spelling, and the proof that decoding a canonical encoding gives the
//! value back.

use vstd::prelude::*;

use crate::data::ConfigData;

verus! {

/// A configuration holding one switch, stored as `{"enabled": ...}`.
#[derive(Clone, Copy, Debug, PartialEq, Eq, Structural)]
pub struct WidgetConfig {
    pub enabled: bool,
}

/// The canonical, pretty-printed encoding of a switch value.
pub open spec fn pretty_text(enabled: bool) -> Seq<char> {
    if enabled {
        "{\n  \"enabled\": true\n}"@
    } else {
        "{\n  \"enabled\": false\n}"@
    }
}

/// The compact encoding of a switch value, accepted on read.
pub open spec fn compact_text(enabled: bool) -> Seq<char> {
    if enabled {
        "{\"enabled\":true}"@
    } else {
        "{\"enabled\":false}"@
    }
}

impl ConfigData for WidgetConfig {
    open spec fn spec_default() -> WidgetConfig {
        WidgetConfig { enabled: false }
    }

    open spec fn spec_encoded(self) -> Seq<char> {
        pretty_text(self.enabled)
    }

    open spec fn spec_encodable(self) -> bool {
        true
    }

    open spec fn spec_decode(s: Seq<char>) -> Option<WidgetConfig> {
        if s == pretty_text(true) || s == compact_text(true) {
            Some(WidgetConfig { enabled: true })
        } else if s == pretty_text(false) || s == compact_text(false) {
            Some(WidgetConfig { enabled: false })
        } else {
            None
        }
    }

    proof fn lemma_decode_encoded(self)
        ensures
            Self::spec_decode(self.spec_encoded()) == Some(self),
    {
        reveal_strlit("{\n  \"enabled\": true\n}");
        reveal_strlit("{\n  \"enabled\": false\n}");
        reveal_strlit("{\"enabled\":true}");
        reveal_strlit("{\"enabled\":false}");
        assert(pretty_text(true).len() == 21);
        assert(pretty_text(false).len() == 22);
        assert(compact_text(true).len() == 16);
        assert(compact_text(false).len() == 17);
    }

    fn default_data() -> (r: WidgetConfig)
        ensures
            r == Self::spec_default(),
    {
        WidgetConfig { enabled: false }
    }

    fn encode_json(&self) -> (r: Result<String, String>)
        ensures
            r matches Ok(s) ==> s@ == self.spec_encoded(),
            r is Ok <==> self.spec_encodable(),
    {
        if self.enabled {
            Ok("{\n  \"enabled\": true\n}".to_owned())
        } else {
            Ok("{\n  \"enabled\": false\n}".to_owned())
        }
    }

    fn decode_json(s: &str) -> (r: Result<WidgetConfig, String>)
        ensures
            r matches Ok(v) ==> Self::spec_decode(s@) == Some(v),
            r is Err ==> Self::spec_decode(s@) is None,
    {
        let text = s.to_owned();
        if text == "{\n  \"enabled\": true\n}".to_owned() {
            Ok(WidgetConfig { enabled: true })
        } else if text == "{\"enabled\":true}".to_owned() {
            Ok(WidgetConfig { enabled: true })
        } else if text == "{\n  \"enabled\": false\n}".to_owned() {
            Ok(WidgetConfig { enabled: false })
        } else if text == "{\"enabled\":false}".to_owned() {
            Ok(WidgetConfig { enabled: false })
        } else {
            Err("the text is not a known encoding of a switch".to_owned())
        }
    }
}

} // verus!
