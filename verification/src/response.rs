//! What a response means: success, a fault that the server explained, or a
//! body that could not be read.

use crate::codec::{
    decode, decode_list, decoded_body, decoded_list_body, read_text_member, text_member, FromJson,
};
use crate::error::{Error, ErrorView};
use crate::http::{is_success, spec_is_success, Response};
use crate::pagination::{decode_page, decoded_page, Envelope, EnvelopeView};
use crate::views::views;
use vstd::prelude::*;

verus! {

/// The failure that a response outside the 2xx range stands for. Where the
/// body is a JSON object with a string under `error_message`, a fault with
/// that message; else the body could not be read.
pub open spec fn spec_fault(status: u16, body: Seq<u8>) -> ErrorView {
    match text_member(body, "error_message"@) {
        Some(message) => ErrorView::Fault { code: status, error: message },
        None => ErrorView::Codec { raw: body },
    }
}

/// What a response stands for before its body is decoded: the body of a
/// success, or the failure.
pub open spec fn spec_classify(status: u16, body: Seq<u8>) -> Result<Seq<u8>, ErrorView> {
    if spec_is_success(status) {
        Ok(body)
    } else {
        Err(spec_fault(status, body))
    }
}

/// What a response decodes to as a `T`.
pub open spec fn spec_decode<T: FromJson>(status: u16, body: Seq<u8>) -> Result<T::V, ErrorView> {
    if spec_is_success(status) {
        match decoded_body::<T>(body) {
            Some(x) => Ok(x),
            None => Err(ErrorView::Codec { raw: body }),
        }
    } else {
        Err(spec_fault(status, body))
    }
}

/// What a response decodes to as the list of `T` under `key`.
pub open spec fn spec_list<T: FromJson>(status: u16, body: Seq<u8>, key: Seq<char>) -> Result<
    Seq<T::V>,
    ErrorView,
> {
    if spec_is_success(status) {
        match decoded_list_body::<T>(body, key) {
            Some(items) => Ok(items),
            None => Err(ErrorView::Codec { raw: body }),
        }
    } else {
        Err(spec_fault(status, body))
    }
}

/// What a response decodes to as a page whose items stand under `key`.
pub open spec fn spec_page<T: FromJson>(status: u16, body: Seq<u8>, key: Seq<char>) -> Result<
    EnvelopeView<T::V>,
    ErrorView,
> {
    if spec_is_success(status) {
        match decoded_page::<T>(body, key) {
            Some(page) => Ok(page),
            None => Err(ErrorView::Codec { raw: body }),
        }
    } else {
        Err(spec_fault(status, body))
    }
}

/// What the response to a deletion stands for. Such a response often has no
/// body, so a success counts whatever its body holds.
pub open spec fn spec_deleted(status: u16, body: Seq<u8>) -> Result<(), ErrorView> {
    if spec_is_success(status) {
        Ok(())
    } else {
        Err(spec_fault(status, body))
    }
}

/// A deletion succeeds on every response in the 2xx range, whatever the
/// body: empty, not JSON, or JSON of any shape. Outside that range a body
/// with an `error_message` makes it a fault with that status and message.
pub proof fn lemma_deleted(status: u16, body: Seq<u8>)
    ensures
        spec_is_success(status) ==> spec_deleted(status, body) == Ok::<(), ErrorView>(()),
        !spec_is_success(status) ==> spec_deleted(status, body) is Err,
        !spec_is_success(status) && text_member(body, "error_message"@) is Some ==> spec_deleted(
            status,
            body,
        ) == Err::<(), ErrorView>(
            ErrorView::Fault { code: status, error: text_member(body, "error_message"@)->0 },
        ),
{
}

/// The failure that a response outside the 2xx range stands for, given the
/// message that was read from its body: a fault with that message, or the
/// body itself where no message could be read.
pub fn fault_with(status: u16, body: Vec<u8>, message: Option<String>) -> (e: Error)
    ensures
        e@ == match message {
            Some(m) => ErrorView::Fault { code: status, error: m@ },
            None => ErrorView::Codec { raw: body@ },
        },
{
    match message {
        Some(message) => Error::Fault { code: status, error: message },
        None => Error::Codec { raw: body },
    }
}

/// The failure that a response outside the 2xx range stands for.
pub fn fault(status: u16, body: Vec<u8>) -> (e: Error)
    ensures
        e@ == spec_fault(status, body@),
{
    let message = read_text_member(body.as_slice(), "error_message");
    fault_with(status, body, message)
}

impl Response {
    /// True for a status from 200 to 299.
    pub fn is_success(&self) -> (b: bool)
        ensures
            b == spec_is_success(self.status),
    {
        is_success(self.status)
    }

    /// The body of a success, as it came, or the failure that the response
    /// stands for.
    pub fn into_body(self) -> (r: Result<Vec<u8>, Error>)
        ensures
            match r {
                Ok(body) => spec_classify(self.status, self.body@) == Ok::<Seq<u8>, ErrorView>(
                    body@,
                ),
                Err(e) => spec_classify(self.status, self.body@) == Err::<Seq<u8>, ErrorView>(e@),
            },
    {
        if is_success(self.status) {
            Ok(self.body)
        } else {
            Err(fault(self.status, self.body))
        }
    }

    /// The body of a success decoded as a `T`, or the failure that the
    /// response stands for.
    pub fn decode<T: FromJson>(self) -> (r: Result<T, Error>)
        ensures
            match r {
                Ok(x) => spec_decode::<T>(self.status, self.body@) == Ok::<T::V, ErrorView>(x@),
                Err(e) => spec_decode::<T>(self.status, self.body@) == Err::<T::V, ErrorView>(e@),
            },
    {
        if is_success(self.status) {
            decode::<T>(self.body)
        } else {
            Err(fault(self.status, self.body))
        }
    }

    /// The body of a success decoded as the list of `T` under `key`, or the
    /// failure that the response stands for.
    pub fn list<T: FromJson>(self, key: &str) -> (r: Result<Vec<T>, Error>)
        ensures
            match r {
                Ok(items) => spec_list::<T>(self.status, self.body@, key@) == Ok::<
                    Seq<T::V>,
                    ErrorView,
                >(views(items@)),
                Err(e) => spec_list::<T>(self.status, self.body@, key@) == Err::<
                    Seq<T::V>,
                    ErrorView,
                >(e@),
            },
    {
        if is_success(self.status) {
            decode_list::<T>(self.body, key)
        } else {
            Err(fault(self.status, self.body))
        }
    }

    /// The body of a success decoded as a page whose items stand under
    /// `key`, or the failure that the response stands for.
    pub fn page<T: FromJson>(self, key: &str) -> (r: Result<Envelope<T>, Error>)
        ensures
            match r {
                Ok(page) => spec_page::<T>(self.status, self.body@, key@) == Ok::<
                    EnvelopeView<T::V>,
                    ErrorView,
                >(page@),
                Err(e) => spec_page::<T>(self.status, self.body@, key@) == Err::<
                    EnvelopeView<T::V>,
                    ErrorView,
                >(e@),
            },
    {
        if is_success(self.status) {
            decode_page::<T>(self.body, key)
        } else {
            Err(fault(self.status, self.body))
        }
    }

    /// The outcome of a deletion: any success, whatever its body, or the
    /// failure that the response stands for.
    pub fn deleted(self) -> (r: Result<(), Error>)
        ensures
            match r {
                Ok(_) => spec_deleted(self.status, self.body@) is Ok,
                Err(e) => spec_deleted(self.status, self.body@) == Err::<(), ErrorView>(e@),
            },
    {
        if is_success(self.status) {
            Ok(())
        } else {
            Err(fault(self.status, self.body))
        }
    }
}

} // verus!
