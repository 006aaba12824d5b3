use masq::net::{IpAddress, SocketAddress};
use masq::stream_handler_pool::{DispatcherNodeQueryResponse, Endpoint, NodeAddr, NodeDescriptor, PublicKey, TransmitDataMsg};
use masq::utils::{BufReadFactoryReal, MASQ_PROMPT};

#[test]
fn prompt_text() {
    assert_eq!(MASQ_PROMPT, "masq> ");
    let _factory = BufReadFactoryReal::new();
}

#[test]
fn transmit_data_messages_compare_by_content() {
    let msg = TransmitDataMsg {
        endpoint: Endpoint::Socket(SocketAddress { ip: IpAddress::V4(1, 2, 3, 4), port: 5678 }),
        last_data: false,
        sequence_number: Some(0),
        data: b"hello".to_vec(),
    };
    let same = msg.clone();
    assert_eq!(msg, same);
    let other = TransmitDataMsg { sequence_number: None, ..msg.clone() };
    assert_ne!(msg, other);
    let response = DispatcherNodeQueryResponse {
        result: Some(NodeDescriptor {
            encryption_public_key: PublicKey { data: vec![1, 2, 3] },
            node_addr_opt: Some(NodeAddr { ip_addr: IpAddress::V4(9, 9, 9, 9), ports: vec![1025] }),
        }),
        context: msg,
    };
    assert_eq!(response.clone().context, same);
}
