use pasori::errors::TransportError;
use pasori::transport::{select_bulk_endpoints, EndpointDirection, EndpointInfo, EndpointTransfer};

fn endpoint(address: u8, direction: EndpointDirection, transfer: EndpointTransfer) -> EndpointInfo {
    EndpointInfo { address, direction, transfer }
}

#[test]
fn picks_first_bulk_endpoint_of_each_direction() {
    let endpoints = vec![
        endpoint(0x01, EndpointDirection::Out, EndpointTransfer::Other),
        endpoint(0x81, EndpointDirection::In, EndpointTransfer::Bulk),
        endpoint(0x02, EndpointDirection::Out, EndpointTransfer::Bulk),
        endpoint(0x82, EndpointDirection::In, EndpointTransfer::Bulk),
    ];
    assert_eq!(select_bulk_endpoints(&endpoints), Ok((0x81, 0x02)));
}

#[test]
fn fails_without_bulk_in() {
    let endpoints = vec![
        endpoint(0x02, EndpointDirection::Out, EndpointTransfer::Bulk),
        endpoint(0x81, EndpointDirection::In, EndpointTransfer::Other),
    ];
    assert_eq!(select_bulk_endpoints(&endpoints), Err(TransportError::NoEndpoints));
}

#[test]
fn fails_without_bulk_out() {
    let endpoints = vec![endpoint(0x81, EndpointDirection::In, EndpointTransfer::Bulk)];
    assert_eq!(select_bulk_endpoints(&endpoints), Err(TransportError::NoEndpoints));
}

#[test]
fn fails_on_empty_descriptor_list() {
    assert_eq!(select_bulk_endpoints(&Vec::new()), Err(TransportError::NoEndpoints));
}
