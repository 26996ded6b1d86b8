//! The `refresh` flow as a whole, with its one retry.
//!
//! DPoP nonces are short-lived, so a client has to handle the possibility that its nonce is
//! expired. In such an event, the server returns a `use_dpop_nonce` error code with a new nonce in
//! a header, and the request is sent once more with the new nonce.

use vstd::prelude::*;

use crate::client;
use crate::client::{Oauth2, Oauth2View, TokenRequest};
use crate::clock;
use crate::clock::Timestamp;
use crate::error::Oauth2Error;
use crate::tokens;
use crate::tokens::{
    RefreshFailure, RefreshHandleResponseError, RefreshResponse, RefreshResult, ServerError,
};

verus! {

/// Which request of a `refresh` flow is on its way.
#[derive(Clone, Copy, Debug, PartialEq, Eq, Structural)]
pub enum RefreshStage {
    /// The first one.
    First,

    /// The second one, with the nonce that the answer to the first one brought.
    Retry,
}

/// What the token server answered to a refresh request.
#[derive(Debug)]
pub struct RefreshReply {
    /// The request that is answered.
    pub stage: RefreshStage,

    /// The body of the answer.
    pub answer: Result<RefreshResponse, ServerError>,

    /// The nonce in the answer's `DPoP-Nonce` header, if any.
    pub dpop_nonce: Option<String>,
}

/// How a `refresh` flow goes on after an answer.
pub enum RefreshStep {
    /// It is done.
    Done(RefreshResult),

    /// Another request is to be sent, because the server wants another nonce. The stage is to be
    /// handed back with the answer.
    SendAgain { request: TokenRequest, stage: RefreshStage, error_description: String },
}

/// Why a `refresh` flow failed after an answer.
#[derive(Debug)]
pub enum RefreshError {
    /// The second request could not be made.
    Request(Oauth2Error),

    /// The server granted nothing.
    Response(RefreshHandleResponseError),
}

/// Whether the token of `reply`, if any, is granted for longer than the margin.
pub open spec fn lasting_reply(reply: RefreshReply) -> bool {
    reply.answer matches Ok(r) ==> r.expires_in >= tokens::EXPIRY_MARGIN
}

impl RefreshReply {
    /// Whether the token, if any, is granted for longer than the margin. Only such an answer can be
    /// handled.
    pub fn is_lasting(&self) -> (lasting: bool)
        ensures
            lasting == lasting_reply(*self),
    {
        match &self.answer {
            Ok(r) => r.expires_in >= tokens::EXPIRY_MARGIN,
            Err(_) => true,
        }
    }
}

/// What the answer `reply` that arrives at `now` does to a `refresh` flow. The first time that the
/// server wants another nonce, the client takes it over and makes another request; any other
/// answer ends the flow and leaves the client as it is.
pub open spec fn replied(
    before: Oauth2View,
    reply: RefreshReply,
    now: Timestamp,
    after: Oauth2View,
    step: Result<RefreshStep, RefreshError>,
) -> bool {
    match (
        tokens::refreshed(
            reply.answer,
            reply.dpop_nonce.deep_view(),
            before.cfg.dpop_nonce,
            now,
        ),
        reply.stage,
    ) {
        (Ok(r), _) => {
            &&& after == before
            &&& step matches Ok(RefreshStep::Done(q))
            &&& q@ == r
        },
        (
            Err(RefreshFailure::UseDpopNonce { error_description, dpop_nonce }),
            RefreshStage::First,
        ) => {
            &&& after == client::with_nonce(before, Some(dpop_nonce))
            &&& match step {
                Ok(RefreshStep::SendAgain { request, stage, error_description: d }) => {
                    &&& stage == RefreshStage::Retry
                    &&& d@ == error_description
                    &&& client::fresh_refresh_request(after, Ok(request))
                },
                Err(RefreshError::Request(e)) => client::fresh_refresh_request(after, Err(e)),
                _ => false,
            }
        },
        (Err(failure), _) => {
            &&& after == before
            &&& step matches Err(RefreshError::Response(e))
            &&& e@ == failure
        },
    }
}

impl Oauth2 {
    /// Goes on with a `refresh` flow after an answer that arrives at `now`.
    pub fn refresh_continue_at(&mut self, reply: RefreshReply, now: Timestamp) -> (step: Result<
        RefreshStep,
        RefreshError,
    >)
        requires
            lasting_reply(reply),
            now.secs <= i64::MAX - u32::MAX,
        ensures
            replied(old(self)@, reply, now, final(self)@, step),
    {
        let stage = reply.stage;
        match self.refresh_handle_response_at(reply.answer, reply.dpop_nonce, now) {
            Ok(result) => Ok(RefreshStep::Done(result)),
            Err(RefreshHandleResponseError::UseDpopNonce { error_description, dpop_nonce }) => {
                match stage {
                    RefreshStage::First => {
                        self.set_dpop_nonce(dpop_nonce.as_str());
                        match self.refresh() {
                            Ok(request) => Ok(
                                RefreshStep::SendAgain {
                                    request,
                                    stage: RefreshStage::Retry,
                                    error_description,
                                },
                            ),
                            Err(e) => Err(RefreshError::Request(e)),
                        }
                    },
                    RefreshStage::Retry => Err(
                        RefreshError::Response(
                            RefreshHandleResponseError::UseDpopNonce {
                                error_description,
                                dpop_nonce,
                            },
                        ),
                    ),
                }
            },
            Err(e) => Err(RefreshError::Response(e)),
        }
    }

    /// Goes on with a `refresh` flow after an answer.
    pub fn refresh_continue(&mut self, reply: RefreshReply) -> (step: Result<
        RefreshStep,
        RefreshError,
    >)
        requires
            lasting_reply(reply),
        ensures
            exists|now: Timestamp|
                clock::was_read(now) && clock::is_reading(now) && #[trigger] replied(
                    old(self)@,
                    reply,
                    now,
                    final(self)@,
                    step,
                ),
    {
        let now = clock::now();
        self.refresh_continue_at(reply, now)
    }
}

} // verus!
