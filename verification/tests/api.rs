use unc_jsonrpc::api::{RpcFrom, RpcInto};
use unc_jsonrpc::errors::MailboxError;
use unc_jsonrpc::handler::JsonRpcHandler;

#[derive(Debug, PartialEq)]
enum Failure {
    Refused(u8),
    Lost(MailboxError),
}

impl RpcFrom<u8> for Failure {
    fn rpc_from(value: u8) -> Self {
        Failure::Refused(value)
    }
}

impl RpcFrom<MailboxError> for Failure {
    fn rpc_from(value: MailboxError) -> Self {
        Failure::Lost(value)
    }
}

fn client(reply: Result<Result<&'static str, u8>, MailboxError>) -> Result<&'static str, Failure> {
    JsonRpcHandler::client_send(reply)
}

fn view_client(
    reply: Result<Result<&'static str, u8>, MailboxError>,
) -> Result<&'static str, Failure> {
    JsonRpcHandler::view_client_send(reply)
}

fn peer_manager(
    reply: Option<Result<&'static str, MailboxError>>,
) -> Result<&'static str, Failure> {
    JsonRpcHandler::peer_manager_send(reply)
}

#[test]
fn client_replies() {
    assert_eq!(client(Ok(Ok("status"))), Ok("status"));
    assert_eq!(client(Ok(Err(7))), Err(Failure::Refused(7)));
    assert_eq!(client(Err(MailboxError::Timeout)), Err(Failure::Lost(MailboxError::Timeout)));
}

#[test]
fn view_client_replies() {
    assert_eq!(view_client(Ok(Ok("block"))), Ok("block"));
    assert_eq!(view_client(Ok(Err(3))), Err(Failure::Refused(3)));
    assert_eq!(view_client(Err(MailboxError::Closed)), Err(Failure::Lost(MailboxError::Closed)));
}

#[test]
fn no_peer_manager_is_a_closed_mailbox() {
    assert_eq!(peer_manager(Some(Ok("peers"))), Ok("peers"));
    assert_eq!(
        peer_manager(Some(Err(MailboxError::Timeout))),
        Err(Failure::Lost(MailboxError::Timeout))
    );
    assert_eq!(peer_manager(None), Err(Failure::Lost(MailboxError::Closed)));
}

#[test]
fn values_convert() {
    let failure: Failure = 5u8.rpc_into();
    assert_eq!(failure, Failure::Refused(5));
    let same: Failure = failure.rpc_into();
    assert_eq!(same, Failure::Refused(5));
}
