use spdmlib::codec::Reader;
use spdmlib::codec::Writer;
use spdmlib::common::SpdmConfigInfo;
use spdmlib::common::SpdmContext;
use spdmlib::common::SpdmProvisionInfo;
use spdmlib::common::SpdmSigningStrategy;
use spdmlib::protocol::SpdmVersion;
use spdmlib::version::SpdmGetVersionRequestPayload;
use spdmlib::version::SpdmVersionResponsePayload;
use spdmlib::version::SpdmVersionStruct;

fn new_context() -> SpdmContext {
    let config_info = SpdmConfigInfo {
        session_policy: 0,
        sequence_number_count: 0,
        max_random_count: 0,
        signing_strategy: SpdmSigningStrategy::HashedTranscript,
    };
    let provision_info = SpdmProvisionInfo {
        my_cert_chain: (0..8).map(|_| None).collect(),
        my_cert_chain_data: (0..8).map(|_| None).collect(),
    };
    SpdmContext::new(config_info, provision_info)
}

#[test]
fn test_case1_spdmversion_struct() {
    let mut writer = Writer::init(2);
    let value = SpdmVersionStruct {
        update: 0xffu8,
        version: SpdmVersion::SpdmVersion10,
    };
    assert!(value.encode(&mut writer));
    let mut reader = Reader::init(writer.used_slice());
    assert_eq!(2, reader.left());
    let spdmversionstruct = SpdmVersionStruct::read(&mut reader).unwrap();
    assert_eq!(spdmversionstruct.update, 0xff);
    assert_eq!(spdmversionstruct.version, SpdmVersion::SpdmVersion10);
}

#[test]
fn test_case2_spdmversion_struct() {
    let mut writer = Writer::init(1);
    let value = SpdmVersionStruct {
        update: 100u8,
        version: SpdmVersion::SpdmVersion10,
    };
    let _ = value.encode(&mut writer);
    let mut reader = Reader::init(writer.used_slice());
    let spdmversionstruct = SpdmVersionStruct::read(&mut reader);
    assert_eq!(spdmversionstruct.is_none(), true);
}

#[test]
fn test_case0_spdm_key_exchange_request_payload() {
    let mut writer = Writer::init(8);
    let value = SpdmVersionResponsePayload {
        version_number_entry_count: 2u8,
        versions: (0..3)
            .map(|_| SpdmVersionStruct {
                update: 100u8,
                version: SpdmVersion::SpdmVersion10,
            })
            .collect(),
    };

    let context = new_context();

    assert!(value.spdm_encode(&context, &mut writer));
    let mut reader = Reader::init(writer.used_slice());
    assert_eq!(8, reader.left());
    let version_response = SpdmVersionResponsePayload::spdm_read(&context, &mut reader).unwrap();

    assert_eq!(version_response.version_number_entry_count, 2u8);
    for i in 0..2 {
        assert_eq!(version_response.versions[i].update, 100u8);
        assert_eq!(
            version_response.versions[i].version,
            SpdmVersion::SpdmVersion10
        );
    }
    assert_eq!(0, reader.left());
}

#[test]
fn test_case0_spdm_get_version_request_payload() {
    let mut writer = Writer::init(8);
    let value = SpdmGetVersionRequestPayload {};
    let context = new_context();
    assert!(value.spdm_encode(&context, &mut writer));
    let mut reader = Reader::init(writer.used_slice());
    SpdmGetVersionRequestPayload::spdm_read(&context, &mut reader);
}
