//! The discriminated message unions exchanged between the host and a
//! plugin's configuration UI, the property inspector. The unions are
//! structurally parallel to the plugin-facing ones and reuse the same
//! payload wrapper shapes, but they are distinct types: a frame meant for
//! one side must not be decoded with the other side's schema.

use vstd::prelude::*;

use crate::codec::JsonCodec;
use crate::json::{
    jv_entries, lookup, lookup_field, put, put_field, req_str, res_view, spec_req_str,
    str_eq, DecodeError, ErrV, Json, JsonV,
};
use crate::messages::{
    GlobalSettingsPayload, GlobalSettingsPayloadV, KeyPayload, KeyPayloadV, LogMessagePayload,
    LogMessagePayloadV, UrlPayload, UrlPayloadV,
};

verus! {

broadcast use crate::json::lemma_lookup_push;

/// A message received by the property inspector from the host.
#[derive(Debug, PartialEq)]
pub enum Message {
    /// The host has sent the settings for an action, in response to a
    /// get-settings request or after the settings changed.
    DidReceiveSettings {
        /// The uuid of the action.
        action: String,
        /// The correlation token received during registration.
        context: String,
        /// The device where the action exists.
        device: String,
        /// The current settings for the action.
        payload: KeyPayload,
    },
    /// The host has sent the plugin-wide settings.
    DidReceiveGlobalSettings {
        /// The current plugin-wide settings.
        payload: GlobalSettingsPayload,
    },
    /// The plugin has sent some data through the host.
    SendToPropertyInspector {
        /// The uuid of the action.
        action: String,
        /// The correlation token received during registration.
        context: String,
        /// The data sent.
        payload: Json,
    },
}

/// The mathematical counterpart of [`Message`].
pub enum MessageV {
    DidReceiveSettings {
        action: Seq<char>,
        context: Seq<char>,
        device: Seq<char>,
        payload: KeyPayloadV,
    },
    DidReceiveGlobalSettings { payload: GlobalSettingsPayloadV },
    SendToPropertyInspector { action: Seq<char>, context: Seq<char>, payload: JsonV },
}

impl DeepView for Message {
    type V = MessageV;

    open spec fn deep_view(&self) -> MessageV {
        match self {
            Message::DidReceiveSettings { action, context, device, payload } => (
            MessageV::DidReceiveSettings {
                action: action@,
                context: context@,
                device: device@,
                payload: payload.deep_view(),
            }),
            Message::DidReceiveGlobalSettings { payload } => (
            MessageV::DidReceiveGlobalSettings { payload: payload.deep_view() }),
            Message::SendToPropertyInspector { action, context, payload } => (
            MessageV::SendToPropertyInspector {
                action: action@,
                context: context@,
                payload: payload.deep_view(),
            }),
        }
    }
}

impl View for Message {
    type V = MessageV;

    open spec fn view(&self) -> MessageV {
        self.deep_view()
    }
}

impl JsonCodec for Message {
    open spec fn spec_enc(v: MessageV) -> JsonV {
        match v {
            MessageV::DidReceiveSettings { action, context, device, payload } => {
                let o = put(Seq::empty(), "event"@, JsonV::Str("didReceiveSettings"@));
                let o = put(o, "action"@, JsonV::Str(action));
                let o = put(o, "context"@, JsonV::Str(context));
                let o = put(o, "device"@, JsonV::Str(device));
                let o = put(o, "payload"@, KeyPayload::spec_enc(payload));
                JsonV::Obj(o)
            },
            MessageV::DidReceiveGlobalSettings { payload } => {
                let o = put(Seq::empty(), "event"@, JsonV::Str("didReceiveGlobalSettings"@));
                let o = put(o, "payload"@, GlobalSettingsPayload::spec_enc(payload));
                JsonV::Obj(o)
            },
            MessageV::SendToPropertyInspector { action, context, payload } => {
                let o = put(Seq::empty(), "event"@, JsonV::Str("sendToPropertyInspector"@));
                let o = put(o, "action"@, JsonV::Str(action));
                let o = put(o, "context"@, JsonV::Str(context));
                let o = put(o, "payload"@, payload);
                JsonV::Obj(o)
            },
        }
    }

    open spec fn spec_dec(j: JsonV) -> Result<MessageV, ErrV> {
        match j {
            JsonV::Obj(o) => {
                let ev = spec_req_str(o, "event"@);
                if ev is Err {
                    Err(ev->Err_0)
                } else {
                    let tag = ev->Ok_0;
                    if tag == "didReceiveSettings"@ {
                        let action = spec_req_str(o, "action"@);
                        let context = spec_req_str(o, "context"@);
                        let device = spec_req_str(o, "device"@);
                        let payload = match lookup(o, "payload"@) {
                            Some(x) => match KeyPayload::spec_dec(x) {
                                Ok(p) => Ok(p),
                                Err(e) => Err(
                                    ErrV::Payload("didReceiveSettings"@, Box::new(e)),
                                ),
                            },
                            None => Err(ErrV::MissingField("payload"@)),
                        };
                        if action is Err {
                            Err(action->Err_0)
                        } else if context is Err {
                            Err(context->Err_0)
                        } else if device is Err {
                            Err(device->Err_0)
                        } else if payload is Err {
                            Err(payload->Err_0)
                        } else {
                            Ok(
                                (MessageV::DidReceiveSettings {
                                    action: action->Ok_0,
                                    context: context->Ok_0,
                                    device: device->Ok_0,
                                    payload: payload->Ok_0,
                                }),
                            )
                        }
                    } else if tag == "didReceiveGlobalSettings"@ {
                        let payload = match lookup(o, "payload"@) {
                            Some(x) => match GlobalSettingsPayload::spec_dec(x) {
                                Ok(p) => Ok(p),
                                Err(e) => Err(
                                    ErrV::Payload("didReceiveGlobalSettings"@, Box::new(e)),
                                ),
                            },
                            None => Err(ErrV::MissingField("payload"@)),
                        };
                        if payload is Err {
                            Err(payload->Err_0)
                        } else {
                            Ok((MessageV::DidReceiveGlobalSettings { payload: payload->Ok_0 }))
                        }
                    } else if tag == "sendToPropertyInspector"@ {
                        let action = spec_req_str(o, "action"@);
                        let context = spec_req_str(o, "context"@);
                        let payload = match lookup(o, "payload"@) {
                            Some(x) => Ok(x),
                            None => Err(ErrV::MissingField("payload"@)),
                        };
                        if action is Err {
                            Err(action->Err_0)
                        } else if context is Err {
                            Err(context->Err_0)
                        } else if payload is Err {
                            Err(payload->Err_0)
                        } else {
                            Ok(
                                (MessageV::SendToPropertyInspector {
                                    action: action->Ok_0,
                                    context: context->Ok_0,
                                    payload: payload->Ok_0,
                                }),
                            )
                        }
                    } else {
                        Err(ErrV::UnknownVariant(tag))
                    }
                }
            },
            _ => Err(ErrV::NotAnObject),
        }
    }

    fn enc(&self) -> (r: Json) {
        let mut o: Vec<(String, Json)> = Vec::new();
        proof {
            assert(jv_entries(o@) =~= Seq::<(Seq<char>, JsonV)>::empty());
        }
        match self {
            Message::DidReceiveSettings { action, context, device, payload } => {
                put_field(&mut o, "event", Json::Str("didReceiveSettings".to_owned()));
                put_field(&mut o, "action", Json::Str(action.clone()));
                put_field(&mut o, "context", Json::Str(context.clone()));
                put_field(&mut o, "device", Json::Str(device.clone()));
                put_field(&mut o, "payload", payload.enc());
            },
            Message::DidReceiveGlobalSettings { payload } => {
                put_field(&mut o, "event", Json::Str("didReceiveGlobalSettings".to_owned()));
                put_field(&mut o, "payload", payload.enc());
            },
            Message::SendToPropertyInspector { action, context, payload } => {
                put_field(&mut o, "event", Json::Str("sendToPropertyInspector".to_owned()));
                put_field(&mut o, "action", Json::Str(action.clone()));
                put_field(&mut o, "context", Json::Str(context.clone()));
                put_field(&mut o, "payload", payload.duplicate());
            },
        }
        Json::Obj(o)
    }

    fn dec(j: &Json) -> (r: Result<Message, DecodeError>) {
        let o = match j {
            Json::Obj(o) => o,
            _ => {
                return Err(DecodeError::NotAnObject);
            },
        };
        let ev = match req_str(o, "event") {
            Ok(x) => x,
            Err(e) => {
                return Err(e);
            },
        };
        if str_eq(ev.as_str(), "didReceiveSettings") {
            let action = match req_str(o, "action") {
                Ok(x) => x,
                Err(e) => {
                    return Err(e);
                },
            };
            let context = match req_str(o, "context") {
                Ok(x) => x,
                Err(e) => {
                    return Err(e);
                },
            };
            let device = match req_str(o, "device") {
                Ok(x) => x,
                Err(e) => {
                    return Err(e);
                },
            };
            let payload = match lookup_field(o, "payload") {
                Some(x) => match KeyPayload::dec(x) {
                    Ok(p) => p,
                    Err(e) => {
                        return Err(
                            DecodeError::Payload(
                                "didReceiveSettings".to_owned(),
                                Box::new(e),
                            ),
                        );
                    },
                },
                None => {
                    return Err(DecodeError::MissingField("payload".to_owned()));
                },
            };
            Ok(
                (Message::DidReceiveSettings {
                    action: action,
                    context: context,
                    device: device,
                    payload: payload,
                }),
            )
        } else if str_eq(ev.as_str(), "didReceiveGlobalSettings") {
            let payload = match lookup_field(o, "payload") {
                Some(x) => match GlobalSettingsPayload::dec(x) {
                    Ok(p) => p,
                    Err(e) => {
                        return Err(
                            DecodeError::Payload(
                                "didReceiveGlobalSettings".to_owned(),
                                Box::new(e),
                            ),
                        );
                    },
                },
                None => {
                    return Err(DecodeError::MissingField("payload".to_owned()));
                },
            };
            Ok((Message::DidReceiveGlobalSettings { payload: payload }))
        } else if str_eq(ev.as_str(), "sendToPropertyInspector") {
            let action = match req_str(o, "action") {
                Ok(x) => x,
                Err(e) => {
                    return Err(e);
                },
            };
            let context = match req_str(o, "context") {
                Ok(x) => x,
                Err(e) => {
                    return Err(e);
                },
            };
            let payload = match lookup_field(o, "payload") {
                Some(x) => x.duplicate(),
                None => {
                    return Err(DecodeError::MissingField("payload".to_owned()));
                },
            };
            Ok(
                (Message::SendToPropertyInspector {
                    action: action,
                    context: context,
                    payload: payload,
                }),
            )
        } else {
            Err(DecodeError::UnknownVariant(ev))
        }
    }

    #[verifier::rlimit(100)]
    proof fn lemma_round_trip(v: MessageV) {
        reveal_strlit("event");
        reveal_strlit("action");
        reveal_strlit("context");
        reveal_strlit("device");
        reveal_strlit("payload");
        reveal_strlit("didReceiveSettings");
        reveal_strlit("didReceiveGlobalSettings");
        reveal_strlit("sendToPropertyInspector");
        assert("event"@.len() == 5);
        assert("action"@.len() == 6);
        assert("context"@.len() == 7);
        assert("device"@.len() == 6);
        assert("payload"@.len() == 7);
        assert("didReceiveSettings"@.len() == 18);
        assert("didReceiveGlobalSettings"@.len() == 24);
        assert("sendToPropertyInspector"@.len() == 23);
        assert("action"@[0] != "device"@[0]);
        assert("context"@[0] != "payload"@[0]);
        match v {
            MessageV::DidReceiveSettings { payload, .. } => {
                KeyPayload::lemma_round_trip(payload);
            },
            MessageV::DidReceiveGlobalSettings { payload } => {
                GlobalSettingsPayload::lemma_round_trip(payload);
            },
            MessageV::SendToPropertyInspector { .. } => {
            },
        }
    }
}

/// A message sent by the property inspector to the host.
#[derive(Debug, PartialEq)]
pub enum MessageOut {
    /// Ask the host for an action's settings.
    GetSettings {
        /// The correlation token received during registration.
        context: String,
    },
    /// Store settings for an instance of an action.
    SetSettings {
        /// The correlation token received during registration.
        context: String,
        /// The settings to save.
        payload: Json,
    },
    /// Open a URL in the default browser.
    OpenUrl {
        /// The URL to open.
        payload: UrlPayload,
    },
    /// Ask the host for the plugin-wide settings.
    GetGlobalSettings {
        /// The correlation token received during registration.
        context: String,
    },
    /// Store the plugin-wide settings.
    SetGlobalSettings {
        /// The correlation token received during registration.
        context: String,
        /// The settings to save.
        payload: Json,
    },
    /// Write to the host's log.
    LogMessage {
        /// The message to log.
        payload: LogMessagePayload,
    },
    /// Send data to the plugin through the host.
    SendToPlugin {
        /// The uuid of the action.
        action: String,
        /// The correlation token received during registration.
        context: String,
        /// The data to send.
        payload: Json,
    },
}

/// The mathematical counterpart of [`MessageOut`].
pub enum MessageOutV {
    GetSettings { context: Seq<char> },
    SetSettings { context: Seq<char>, payload: JsonV },
    OpenUrl { payload: UrlPayloadV },
    GetGlobalSettings { context: Seq<char> },
    SetGlobalSettings { context: Seq<char>, payload: JsonV },
    LogMessage { payload: LogMessagePayloadV },
    SendToPlugin { action: Seq<char>, context: Seq<char>, payload: JsonV },
}

impl DeepView for MessageOut {
    type V = MessageOutV;

    open spec fn deep_view(&self) -> MessageOutV {
        match self {
            MessageOut::GetSettings { context } => (
            MessageOutV::GetSettings { context: context@ }),
            MessageOut::SetSettings { context, payload } => (
            MessageOutV::SetSettings { context: context@, payload: payload.deep_view() }),
            MessageOut::OpenUrl { payload } => (
            MessageOutV::OpenUrl { payload: payload.deep_view() }),
            MessageOut::GetGlobalSettings { context } => (
            MessageOutV::GetGlobalSettings { context: context@ }),
            MessageOut::SetGlobalSettings { context, payload } => (
            MessageOutV::SetGlobalSettings { context: context@, payload: payload.deep_view() }),
            MessageOut::LogMessage { payload } => (
            MessageOutV::LogMessage { payload: payload.deep_view() }),
            MessageOut::SendToPlugin { action, context, payload } => (
            MessageOutV::SendToPlugin {
                action: action@,
                context: context@,
                payload: payload.deep_view(),
            }),
        }
    }
}

impl View for MessageOut {
    type V = MessageOutV;

    open spec fn view(&self) -> MessageOutV {
        self.deep_view()
    }
}

impl JsonCodec for MessageOut {
    open spec fn spec_enc(v: MessageOutV) -> JsonV {
        match v {
            MessageOutV::GetSettings { context } => {
                let o = put(Seq::empty(), "event"@, JsonV::Str("getSettings"@));
                let o = put(o, "context"@, JsonV::Str(context));
                JsonV::Obj(o)
            },
            MessageOutV::SetSettings { context, payload } => {
                let o = put(Seq::empty(), "event"@, JsonV::Str("setSettings"@));
                let o = put(o, "context"@, JsonV::Str(context));
                let o = put(o, "payload"@, payload);
                JsonV::Obj(o)
            },
            MessageOutV::OpenUrl { payload } => {
                let o = put(Seq::empty(), "event"@, JsonV::Str("openUrl"@));
                let o = put(o, "payload"@, UrlPayload::spec_enc(payload));
                JsonV::Obj(o)
            },
            MessageOutV::GetGlobalSettings { context } => {
                let o = put(Seq::empty(), "event"@, JsonV::Str("getGlobalSettings"@));
                let o = put(o, "context"@, JsonV::Str(context));
                JsonV::Obj(o)
            },
            MessageOutV::SetGlobalSettings { context, payload } => {
                let o = put(Seq::empty(), "event"@, JsonV::Str("setGlobalSettings"@));
                let o = put(o, "context"@, JsonV::Str(context));
                let o = put(o, "payload"@, payload);
                JsonV::Obj(o)
            },
            MessageOutV::LogMessage { payload } => {
                let o = put(Seq::empty(), "event"@, JsonV::Str("logMessage"@));
                let o = put(o, "payload"@, LogMessagePayload::spec_enc(payload));
                JsonV::Obj(o)
            },
            MessageOutV::SendToPlugin { action, context, payload } => {
                let o = put(Seq::empty(), "event"@, JsonV::Str("sendToPlugin"@));
                let o = put(o, "action"@, JsonV::Str(action));
                let o = put(o, "context"@, JsonV::Str(context));
                let o = put(o, "payload"@, payload);
                JsonV::Obj(o)
            },
        }
    }

    open spec fn spec_dec(j: JsonV) -> Result<MessageOutV, ErrV> {
        match j {
            JsonV::Obj(o) => {
                let ev = spec_req_str(o, "event"@);
                if ev is Err {
                    Err(ev->Err_0)
                } else {
                    let tag = ev->Ok_0;
                    if tag == "getSettings"@ {
                        let context = spec_req_str(o, "context"@);
                        if context is Err {
                            Err(context->Err_0)
                        } else {
                            Ok((MessageOutV::GetSettings { context: context->Ok_0 }))
                        }
                    } else if tag == "setSettings"@ {
                        let context = spec_req_str(o, "context"@);
                        let payload = match lookup(o, "payload"@) {
                            Some(x) => Ok(x),
                            None => Err(ErrV::MissingField("payload"@)),
                        };
                        if context is Err {
                            Err(context->Err_0)
                        } else if payload is Err {
                            Err(payload->Err_0)
                        } else {
                            Ok(
                                (MessageOutV::SetSettings {
                                    context: context->Ok_0,
                                    payload: payload->Ok_0,
                                }),
                            )
                        }
                    } else if tag == "openUrl"@ {
                        let payload = match lookup(o, "payload"@) {
                            Some(x) => match UrlPayload::spec_dec(x) {
                                Ok(p) => Ok(p),
                                Err(e) => Err(ErrV::Payload("openUrl"@, Box::new(e))),
                            },
                            None => Err(ErrV::MissingField("payload"@)),
                        };
                        if payload is Err {
                            Err(payload->Err_0)
                        } else {
                            Ok((MessageOutV::OpenUrl { payload: payload->Ok_0 }))
                        }
                    } else if tag == "getGlobalSettings"@ {
                        let context = spec_req_str(o, "context"@);
                        if context is Err {
                            Err(context->Err_0)
                        } else {
                            Ok((MessageOutV::GetGlobalSettings { context: context->Ok_0 }))
                        }
                    } else if tag == "setGlobalSettings"@ {
                        let context = spec_req_str(o, "context"@);
                        let payload = match lookup(o, "payload"@) {
                            Some(x) => Ok(x),
                            None => Err(ErrV::MissingField("payload"@)),
                        };
                        if context is Err {
                            Err(context->Err_0)
                        } else if payload is Err {
                            Err(payload->Err_0)
                        } else {
                            Ok(
                                (MessageOutV::SetGlobalSettings {
                                    context: context->Ok_0,
                                    payload: payload->Ok_0,
                                }),
                            )
                        }
                    } else if tag == "logMessage"@ {
                        let payload = match lookup(o, "payload"@) {
                            Some(x) => match LogMessagePayload::spec_dec(x) {
                                Ok(p) => Ok(p),
                                Err(e) => Err(ErrV::Payload("logMessage"@, Box::new(e))),
                            },
                            None => Err(ErrV::MissingField("payload"@)),
                        };
                        if payload is Err {
                            Err(payload->Err_0)
                        } else {
                            Ok((MessageOutV::LogMessage { payload: payload->Ok_0 }))
                        }
                    } else if tag == "sendToPlugin"@ {
                        let action = spec_req_str(o, "action"@);
                        let context = spec_req_str(o, "context"@);
                        let payload = match lookup(o, "payload"@) {
                            Some(x) => Ok(x),
                            None => Err(ErrV::MissingField("payload"@)),
                        };
                        if action is Err {
                            Err(action->Err_0)
                        } else if context is Err {
                            Err(context->Err_0)
                        } else if payload is Err {
                            Err(payload->Err_0)
                        } else {
                            Ok(
                                (MessageOutV::SendToPlugin {
                                    action: action->Ok_0,
                                    context: context->Ok_0,
                                    payload: payload->Ok_0,
                                }),
                            )
                        }
                    } else {
                        Err(ErrV::UnknownVariant(tag))
                    }
                }
            },
            _ => Err(ErrV::NotAnObject),
        }
    }

    fn enc(&self) -> (r: Json) {
        let mut o: Vec<(String, Json)> = Vec::new();
        proof {
            assert(jv_entries(o@) =~= Seq::<(Seq<char>, JsonV)>::empty());
        }
        match self {
            MessageOut::GetSettings { context } => {
                put_field(&mut o, "event", Json::Str("getSettings".to_owned()));
                put_field(&mut o, "context", Json::Str(context.clone()));
            },
            MessageOut::SetSettings { context, payload } => {
                put_field(&mut o, "event", Json::Str("setSettings".to_owned()));
                put_field(&mut o, "context", Json::Str(context.clone()));
                put_field(&mut o, "payload", payload.duplicate());
            },
            MessageOut::OpenUrl { payload } => {
                put_field(&mut o, "event", Json::Str("openUrl".to_owned()));
                put_field(&mut o, "payload", payload.enc());
            },
            MessageOut::GetGlobalSettings { context } => {
                put_field(&mut o, "event", Json::Str("getGlobalSettings".to_owned()));
                put_field(&mut o, "context", Json::Str(context.clone()));
            },
            MessageOut::SetGlobalSettings { context, payload } => {
                put_field(&mut o, "event", Json::Str("setGlobalSettings".to_owned()));
                put_field(&mut o, "context", Json::Str(context.clone()));
                put_field(&mut o, "payload", payload.duplicate());
            },
            MessageOut::LogMessage { payload } => {
                put_field(&mut o, "event", Json::Str("logMessage".to_owned()));
                put_field(&mut o, "payload", payload.enc());
            },
            MessageOut::SendToPlugin { action, context, payload } => {
                put_field(&mut o, "event", Json::Str("sendToPlugin".to_owned()));
                put_field(&mut o, "action", Json::Str(action.clone()));
                put_field(&mut o, "context", Json::Str(context.clone()));
                put_field(&mut o, "payload", payload.duplicate());
            },
        }
        Json::Obj(o)
    }

    fn dec(j: &Json) -> (r: Result<MessageOut, DecodeError>) {
        let o = match j {
            Json::Obj(o) => o,
            _ => {
                return Err(DecodeError::NotAnObject);
            },
        };
        let ev = match req_str(o, "event") {
            Ok(x) => x,
            Err(e) => {
                return Err(e);
            },
        };
        if str_eq(ev.as_str(), "getSettings") {
            let context = match req_str(o, "context") {
                Ok(x) => x,
                Err(e) => {
                    return Err(e);
                },
            };
            Ok((MessageOut::GetSettings { context: context }))
        } else if str_eq(ev.as_str(), "setSettings") {
            let context = match req_str(o, "context") {
                Ok(x) => x,
                Err(e) => {
                    return Err(e);
                },
            };
            let payload = match lookup_field(o, "payload") {
                Some(x) => x.duplicate(),
                None => {
                    return Err(DecodeError::MissingField("payload".to_owned()));
                },
            };
            Ok((MessageOut::SetSettings { context: context, payload: payload }))
        } else if str_eq(ev.as_str(), "openUrl") {
            let payload = match lookup_field(o, "payload") {
                Some(x) => match UrlPayload::dec(x) {
                    Ok(p) => p,
                    Err(e) => {
                        return Err(DecodeError::Payload("openUrl".to_owned(), Box::new(e)));
                    },
                },
                None => {
                    return Err(DecodeError::MissingField("payload".to_owned()));
                },
            };
            Ok((MessageOut::OpenUrl { payload: payload }))
        } else if str_eq(ev.as_str(), "getGlobalSettings") {
            let context = match req_str(o, "context") {
                Ok(x) => x,
                Err(e) => {
                    return Err(e);
                },
            };
            Ok((MessageOut::GetGlobalSettings { context: context }))
        } else if str_eq(ev.as_str(), "setGlobalSettings") {
            let context = match req_str(o, "context") {
                Ok(x) => x,
                Err(e) => {
                    return Err(e);
                },
            };
            let payload = match lookup_field(o, "payload") {
                Some(x) => x.duplicate(),
                None => {
                    return Err(DecodeError::MissingField("payload".to_owned()));
                },
            };
            Ok((MessageOut::SetGlobalSettings { context: context, payload: payload }))
        } else if str_eq(ev.as_str(), "logMessage") {
            let payload = match lookup_field(o, "payload") {
                Some(x) => match LogMessagePayload::dec(x) {
                    Ok(p) => p,
                    Err(e) => {
                        return Err(DecodeError::Payload("logMessage".to_owned(), Box::new(e)));
                    },
                },
                None => {
                    return Err(DecodeError::MissingField("payload".to_owned()));
                },
            };
            Ok((MessageOut::LogMessage { payload: payload }))
        } else if str_eq(ev.as_str(), "sendToPlugin") {
            let action = match req_str(o, "action") {
                Ok(x) => x,
                Err(e) => {
                    return Err(e);
                },
            };
            let context = match req_str(o, "context") {
                Ok(x) => x,
                Err(e) => {
                    return Err(e);
                },
            };
            let payload = match lookup_field(o, "payload") {
                Some(x) => x.duplicate(),
                None => {
                    return Err(DecodeError::MissingField("payload".to_owned()));
                },
            };
            Ok(
                (MessageOut::SendToPlugin {
                    action: action,
                    context: context,
                    payload: payload,
                }),
            )
        } else {
            Err(DecodeError::UnknownVariant(ev))
        }
    }

    #[verifier::rlimit(100)]
    proof fn lemma_round_trip(v: MessageOutV) {
        reveal_strlit("event");
        reveal_strlit("action");
        reveal_strlit("context");
        reveal_strlit("payload");
        reveal_strlit("getSettings");
        reveal_strlit("setSettings");
        reveal_strlit("openUrl");
        reveal_strlit("getGlobalSettings");
        reveal_strlit("setGlobalSettings");
        reveal_strlit("logMessage");
        reveal_strlit("sendToPlugin");
        assert("event"@.len() == 5);
        assert("action"@.len() == 6);
        assert("context"@.len() == 7);
        assert("payload"@.len() == 7);
        assert("getSettings"@.len() == 11);
        assert("setSettings"@.len() == 11);
        assert("openUrl"@.len() == 7);
        assert("getGlobalSettings"@.len() == 17);
        assert("setGlobalSettings"@.len() == 17);
        assert("logMessage"@.len() == 10);
        assert("sendToPlugin"@.len() == 12);
        assert("context"@[0] != "payload"@[0]);
        assert("getSettings"@[0] != "setSettings"@[0]);
        assert("getGlobalSettings"@[0] != "setGlobalSettings"@[0]);
        match v {
            MessageOutV::OpenUrl { payload } => {
                UrlPayload::lemma_round_trip(payload);
            },
            MessageOutV::LogMessage { payload } => {
                LogMessagePayload::lemma_round_trip(payload);
            },
            _ => {
            },
        }
    }
}

} // verus!
