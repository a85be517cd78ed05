use vstd::prelude::*;
use crate::envelope::{
    decoded_info, decoded_request, decoded_response, encoded_info, encoded_response, DecodeError,
    InfoView, PluginInfo, PluginRequest, PluginResponse, RequestView, ResponseView,
};

verus! {

/// A module's result slot: the length of the envelope that the module
/// produced last. There is one slot for each module instance, and every
/// `init` and `execute` overwrites it.
pub struct ResultSlot {
    len: usize,
}

impl ResultSlot {
    /// The length the slot holds.
    pub closed spec fn length(self) -> nat {
        self.len as nat
    }

    /// The slot after an envelope was produced: it holds that envelope's
    /// length, whatever it held before.
    pub closed spec fn after(self, envelope: Seq<u8>) -> ResultSlot {
        ResultSlot { len: envelope.len() as usize }
    }

    /// The slot of a module that has produced nothing yet.
    pub fn new() -> (slot: ResultSlot)
        ensures
            slot.length() == 0,
    {
        ResultSlot { len: 0 }
    }

    /// The length query: the length in the slot. The slot stays as it is.
    pub fn get_result_len(&self) -> (len: usize)
        ensures
            len == self.length(),
    {
        self.len
    }

    /// Notes that `envelope` is the one produced last.
    pub fn record(&mut self, envelope: &Vec<u8>)
        ensures
            *final(self) == old(self).after(envelope@),
            final(self).length() == envelope@.len(),
    {
        self.len = envelope.len();
    }
}

/// The length query right after an envelope was produced gives that
/// envelope's length, whatever was produced before.
pub proof fn lemma_slot_holds_last_length(slot: ResultSlot, earlier: Seq<u8>, last: Seq<u8>)
    requires
        last.len() <= usize::MAX,
    ensures
        slot.after(last).length() == last.len(),
        slot.after(earlier).after(last) == slot.after(last),
{
}

/// The `init` entry point of a module whose descriptor is `info`: produces
/// the descriptor's envelope and sets the slot to its length.
pub fn serve_init(slot: &mut ResultSlot, info: &PluginInfo) -> (envelope: Vec<u8>)
    ensures
        envelope@ == encoded_info(info@),
        decoded_info(envelope@) == Ok::<InfoView, DecodeError>(info@),
        *final(slot) == old(slot).after(envelope@),
        final(slot).length() == envelope@.len(),
{
    let envelope = info.encode();
    slot.record(&envelope);
    envelope
}

/// Whether `envelope` is what `handler` answers to the request in `bytes`:
/// the envelope of a response that the handler can give to a request whose
/// envelope `bytes` is.
pub open spec fn served_by<F: Fn(PluginRequest) -> PluginResponse>(
    handler: F,
    bytes: Seq<u8>,
    envelope: Seq<u8>,
) -> bool {
    exists|request: PluginRequest, response: PluginResponse|
        decoded_request(bytes) == Ok::<RequestView, DecodeError>(request@)
            && #[trigger] handler.ensures((request,), response) && envelope
            == encoded_response(response@) && decoded_response(envelope) == Ok::<
            ResponseView,
            DecodeError,
        >(response@)
}

/// The `execute` entry point of a module that answers requests with
/// `handler`: decodes the request, hands it to the handler, produces the
/// envelope of the handler's response and sets the slot to its length. Bytes
/// that are no request's envelope give the decode error and leave the slot
/// as it was.
pub fn serve_execute<F: Fn(PluginRequest) -> PluginResponse>(
    slot: &mut ResultSlot,
    bytes: &[u8],
    handler: F,
) -> (served: Result<Vec<u8>, DecodeError>)
    requires
        forall|request: PluginRequest| handler.requires((request,)),
    ensures
        served matches Ok(envelope) ==> served_by(handler, bytes@, envelope@),
        served matches Ok(envelope) ==> *final(slot) == old(slot).after(envelope@),
        served matches Ok(envelope) ==> final(slot).length() == envelope@.len(),
        served matches Err(error) ==> decoded_request(bytes@) == Err::<RequestView, DecodeError>(
            error,
        ),
        served is Err ==> *final(slot) == *old(slot),
{
    let request = match PluginRequest::decode(bytes) {
        Ok(request) => request,
        Err(error) => return Err(error),
    };
    let response = handler(request);
    let envelope = response.encode();
    slot.record(&envelope);
    Ok(envelope)
}

} // verus!
