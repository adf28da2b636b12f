//! Conversions between what the node says and what a method answers.
use crate::errors::MailboxError;
use crate::handler::JsonRpcHandler;
use vstd::prelude::*;

verus! {

/// A value that can be made of another one.
pub trait RpcFrom<T>: Sized {
    fn rpc_from(value: T) -> Self;
}

/// A value that can be made into another one.
pub trait RpcInto<T>: Sized {
    fn rpc_into(self) -> T;
}

impl<T> RpcFrom<T> for T {
    /// A value as it is.
    fn rpc_from(value: T) -> (same: T)
        ensures
            same == value,
    {
        value
    }
}

impl<T, X: RpcFrom<T>> RpcInto<X> for T {
    /// The value that `rpc_from` makes of this one.
    fn rpc_into(self) -> (made: X)
        ensures
            call_ensures(<X as RpcFrom<T>>::rpc_from, (self,), made),
    {
        X::rpc_from(self)
    }
}

impl JsonRpcHandler {
    /// What the client replied to a message, as the result of a method.
    pub fn client_send<T, F, E: RpcFrom<F> + RpcFrom<MailboxError>>(
        reply: Result<Result<T, F>, MailboxError>,
    ) -> (result: Result<T, E>)
        ensures
            match reply {
                Ok(Ok(value)) => result == Ok::<T, E>(value),
                Ok(Err(refusal)) => result matches Err(error) && call_ensures(
                    <E as RpcFrom<F>>::rpc_from,
                    (refusal,),
                    error,
                ),
                Err(failure) => result matches Err(error) && call_ensures(
                    <E as RpcFrom<MailboxError>>::rpc_from,
                    (failure,),
                    error,
                ),
            },
    {
        match reply {
            Ok(Ok(value)) => Ok(value),
            Ok(Err(refusal)) => Err(<E as RpcFrom<F>>::rpc_from(refusal)),
            Err(failure) => Err(<E as RpcFrom<MailboxError>>::rpc_from(failure)),
        }
    }

    /// What the view client replied to a message, as the result of a method.
    pub fn view_client_send<T, F, E: RpcFrom<F> + RpcFrom<MailboxError>>(
        reply: Result<Result<T, F>, MailboxError>,
    ) -> (result: Result<T, E>)
        ensures
            match reply {
                Ok(Ok(value)) => result == Ok::<T, E>(value),
                Ok(Err(refusal)) => result matches Err(error) && call_ensures(
                    <E as RpcFrom<F>>::rpc_from,
                    (refusal,),
                    error,
                ),
                Err(failure) => result matches Err(error) && call_ensures(
                    <E as RpcFrom<MailboxError>>::rpc_from,
                    (failure,),
                    error,
                ),
            },
    {
        Self::client_send(reply)
    }

    /// What the peer manager replied to a message, as the result of a method. Without a peer
    /// manager there is no reply, and it is as if its mailbox were closed.
    pub fn peer_manager_send<T, E: RpcFrom<MailboxError>>(
        reply: Option<Result<T, MailboxError>>,
    ) -> (result: Result<T, E>)
        ensures
            match reply {
                Some(Ok(value)) => result == Ok::<T, E>(value),
                Some(Err(failure)) => result matches Err(error) && call_ensures(
                    <E as RpcFrom<MailboxError>>::rpc_from,
                    (failure,),
                    error,
                ),
                None => result matches Err(error) && call_ensures(
                    <E as RpcFrom<MailboxError>>::rpc_from,
                    (MailboxError::Closed,),
                    error,
                ),
            },
    {
        match reply {
            Some(Ok(value)) => Ok(value),
            Some(Err(failure)) => Err(E::rpc_from(failure)),
            None => Err(E::rpc_from(MailboxError::Closed)),
        }
    }
}

/// A reply of the node is the result of a method, and a method fails exactly where there was no
/// reply or the reply was a refusal. Without a peer manager there is no reply of one.
pub proof fn law_replies_are_results<T, F, E: RpcFrom<F> + RpcFrom<MailboxError>>(
    reply: Result<Result<T, F>, MailboxError>,
    result: Result<T, E>,
    view_result: Result<T, E>,
    peer_reply: Option<Result<T, MailboxError>>,
    peer_result: Result<T, E>,
)
    requires
        call_ensures(JsonRpcHandler::client_send::<T, F, E>, (reply,), result),
        call_ensures(JsonRpcHandler::view_client_send::<T, F, E>, (reply,), view_result),
        call_ensures(JsonRpcHandler::peer_manager_send::<T, E>, (peer_reply,), peer_result),
    ensures
        result is Ok <==> (reply matches Ok(given) && given is Ok),
        result matches Ok(value) ==> reply == Ok::<Result<T, F>, MailboxError>(Ok(value)),
        view_result is Ok <==> (reply matches Ok(given) && given is Ok),
        view_result matches Ok(value) ==> reply == Ok::<Result<T, F>, MailboxError>(Ok(value)),
        peer_result is Ok <==> (peer_reply matches Some(given) && given is Ok),
        peer_result matches Ok(value) ==> peer_reply == Some(Ok::<T, MailboxError>(value)),
{
}

} // verus!
