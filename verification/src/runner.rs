//! Types for executing a plugin rather than writing one: the registration
//! handshake record, and the message unions under the names a generic
//! plugin runner uses. The runner cannot know a plugin's concrete settings
//! shapes, so the unions carry the dynamic [`crate::json::Json`] value.

use vstd::prelude::*;

use crate::codec::JsonCodec;
use crate::json::{jv_entries, put, put_field, req_str, res_view, spec_req_str, DecodeError,
    ErrV, Json, JsonV};

verus! {

broadcast use crate::json::lemma_lookup_push;

/// The message a plugin sends once at process startup to register itself.
#[derive(Debug, PartialEq, Clone)]
pub struct Registration {
    /// Event name passed to the plugin during startup.
    pub event: String,
    /// UUID passed to the plugin during startup, echoed as the
    /// correlation token in later frames.
    pub uuid: String,
}

/// The mathematical counterpart of [`Registration`].
pub struct RegistrationV {
    pub event: Seq<char>,
    pub uuid: Seq<char>,
}

impl DeepView for Registration {
    type V = RegistrationV;

    open spec fn deep_view(&self) -> RegistrationV {
        RegistrationV { event: self.event@, uuid: self.uuid@ }
    }
}

impl View for Registration {
    type V = RegistrationV;

    open spec fn view(&self) -> RegistrationV {
        self.deep_view()
    }
}

impl JsonCodec for Registration {
    open spec fn spec_enc(v: RegistrationV) -> JsonV {
        JsonV::Obj(
            put(put(Seq::empty(), "event"@, JsonV::Str(v.event)), "uuid"@, JsonV::Str(v.uuid)),
        )
    }

    open spec fn spec_dec(j: JsonV) -> Result<RegistrationV, ErrV> {
        match j {
            JsonV::Obj(o) => {
                let event = spec_req_str(o, "event"@);
                let uuid = spec_req_str(o, "uuid"@);
                if event is Err {
                    Err(event->Err_0)
                } else if uuid is Err {
                    Err(uuid->Err_0)
                } else {
                    Ok(RegistrationV { event: event->Ok_0, uuid: uuid->Ok_0 })
                }
            },
            _ => Err(ErrV::NotAnObject),
        }
    }

    fn enc(&self) -> (r: Json) {
        let mut o: Vec<(String, Json)> = Vec::new();
        proof {
            assert(jv_entries(o@) =~= Seq::<(Seq<char>, JsonV)>::empty());
        }
        put_field(&mut o, "event", Json::Str(self.event.clone()));
        put_field(&mut o, "uuid", Json::Str(self.uuid.clone()));
        Json::Obj(o)
    }

    fn dec(j: &Json) -> (r: Result<Registration, DecodeError>) {
        let o = match j {
            Json::Obj(o) => o,
            _ => {
                return Err(DecodeError::NotAnObject);
            },
        };
        let event = match req_str(o, "event") {
            Ok(x) => x,
            Err(e) => {
                return Err(e);
            },
        };
        let uuid = match req_str(o, "uuid") {
            Ok(x) => x,
            Err(e) => {
                return Err(e);
            },
        };
        Ok(Registration { event: event, uuid: uuid })
    }

    proof fn lemma_round_trip(v: RegistrationV) {
        reveal_strlit("event");
        reveal_strlit("uuid");
        assert("event"@.len() == 5);
        assert("uuid"@.len() == 4);
    }
}

/// A message sent to the plugin, with dynamic payloads.
pub type Message = crate::messages::Message;

/// A message received from the plugin, with dynamic payloads.
pub type MessageIn = crate::messages::MessageOut;

/// A message sent to the property inspector, with dynamic payloads.
pub type PropertyInspectorMessage = crate::property_inspector::Message;

/// A message received from the property inspector, with dynamic payloads.
pub type PropertyInspectorMessageIn = crate::property_inspector::MessageOut;

} // verus!
