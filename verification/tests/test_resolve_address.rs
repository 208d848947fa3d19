use oapps::errors::OFTError;
use oapps::oft_core::{address_payload, resolve_address, AddressPayload};

#[test]
fn test_resolve_address_contract_exists() {
    // A contract address
    let contract_address = AddressPayload::ContractIdHash([3u8; 32]);

    // Convert to bytes32
    let bytes32 = address_payload(&Some(contract_address)).unwrap();

    // Resolve back while the contract exists - should return the same contract address
    let resolved = resolve_address(&bytes32, true);

    assert_eq!(resolved, contract_address);
}

#[test]
fn test_resolve_address_contract_not_exists_fallback_to_g_address() {
    // A G-address (account address)
    let g_address = AddressPayload::AccountIdPublicKeyEd25519([4u8; 32]);

    let bytes32 = address_payload(&Some(g_address)).unwrap();

    // No contract has this ID - should fall back to the G-address
    let resolved = resolve_address(&bytes32, false);

    assert_eq!(resolved, g_address);
}

#[test]
fn address_without_payload_is_invalid() {
    assert_eq!(address_payload(&None), Err(OFTError::InvalidAddress));
}
