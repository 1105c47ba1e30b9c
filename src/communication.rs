//! Sending envelopes over the shared pipe and telling incoming payloads apart.
use vstd::prelude::*;
use crate::codec::{
    decode_envelope, decode_message, envelope_refusal, is_envelope_text, is_message_text,
};
use crate::coordination_message::{message_text, CoordinationMessage};
use crate::envelope::{encode_envelope, envelope_text, MessageEnvelope};
use crate::error::CommunicationError;
use crate::zellij_service::ZellijService;

verus! {

/// Result of reading an incoming payload.
#[derive(Debug)]
pub enum ParsedMessage {
    /// The envelope form.
    Envelope(MessageEnvelope),
    /// The bare message form of older senders.
    Legacy(CoordinationMessage),
}

/// Sends envelopes through the host's pipe primitive.
pub struct Communication<T: ZellijService> {
    zellij_service: T,
}

impl<T: ZellijService> Communication<T> {
    /// The host primitives in use, as a value.
    pub closed spec fn service(&self) -> T {
        self.zellij_service
    }

    pub fn new(zellij_service: T) -> (r: Self)
        ensures
            r.service() == zellij_service,
    {
        Communication { zellij_service }
    }

    /// The host primitives in use.
    pub fn get_zellij_service(&self) -> (r: &T)
        ensures
            *r == self.service(),
    {
        &self.zellij_service
    }

    /// Hands the text of `envelope` to the host's pipe primitive, addressed to
    /// every plugin on the coordination pipe. Encoding cannot fail, so the
    /// result is always `Ok`.
    pub fn send_pipe_message(&mut self, envelope: &MessageEnvelope) -> (r: Result<
        (),
        CommunicationError,
    >)
        ensures
            r is Ok,
            final(self).service().piped() == old(self).service().piped().push(
                (envelope_text(envelope@), "coordination"@),
            ),
            final(self).service().written() == old(self).service().written(),
    {
        let payload = encode_envelope(envelope);
        self.zellij_service.pipe_message_to_plugin(payload.as_str(), "coordination");
        Ok(())
    }

    /// Reads a payload as an envelope, else as a bare message; when it is
    /// neither, the error is the one from the envelope attempt.
    pub fn parse_incoming_message(payload: &str) -> (r: Result<ParsedMessage, CommunicationError>)
        ensures
            match r {
                Ok(ParsedMessage::Envelope(e)) => envelope_text(e@) == payload@,
                Ok(ParsedMessage::Legacy(m)) => message_text(m@) == payload@ && !is_envelope_text(
                    payload@,
                ),
                Err(err) => !is_envelope_text(payload@) && !is_message_text(payload@)
                    && envelope_refusal(err),
            },
    {
        match decode_envelope(payload) {
            Ok(e) => Ok(ParsedMessage::Envelope(e)),
            Err(first) => match decode_message(payload) {
                Ok(m) => Ok(ParsedMessage::Legacy(m)),
                Err(_) => Err(first),
            },
        }
    }
}

} // verus!
