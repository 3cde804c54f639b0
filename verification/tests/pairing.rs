use aes::Aes128;
use block_modes::block_padding::NoPadding;
use block_modes::{BlockMode, Ecb};
use moonlight_web::crypto::MoonlightCrypto;
use moonlight_web::network::{
    HostPairResponse1, HostPairResponse2, HostPairResponse3, HostPairResponse4, PairStatus,
    ServerPairResponse5, ServerVersion,
};
use moonlight_web::pair::{PairError, PairPin};
use moonlight_web::pairing::{
    on_challenge_response, on_pair_challenge, on_secret_acknowledged, on_server_certificate,
    on_server_secret, start_pairing, verify_signature, sign_data, PairPhase, PairingState,
    begin_pairing, check_client_credentials, PemDocument,
};
use rsa::pkcs8::{DecodePrivateKey, DecodePublicKey};
use rsa::{Pkcs1v15Sign, RsaPrivateKey, RsaPublicKey};
use sha2::{Digest, Sha256};

/// The PKCS#8 DER form of the host's RSA key.
const SERVER_KEY_DER: [u8; 1216] = [
    0x30, 0x82, 0x04, 0xbc, 0x02, 0x01, 0x00, 0x30, 0x0d, 0x06, 0x09, 0x2a, 0x86, 0x48, 0x86, 0xf7,
    0x0d, 0x01, 0x01, 0x01, 0x05, 0x00, 0x04, 0x82, 0x04, 0xa6, 0x30, 0x82, 0x04, 0xa2, 0x02, 0x01,
    0x00, 0x02, 0x82, 0x01, 0x01, 0x00, 0xb2, 0x13, 0x10, 0xd8, 0x5b, 0x78, 0xc7, 0x8c, 0xe7, 0x19,
    0x71, 0x5d, 0xf0, 0xcd, 0x54, 0x17, 0xb8, 0x25, 0x48, 0xbf, 0x38, 0xae, 0x20, 0xe9, 0x5b, 0x9f,
    0x72, 0xa7, 0xcf, 0x1e, 0x60, 0x8d, 0xb2, 0xab, 0xae, 0x4d, 0x5a, 0x9f, 0x78, 0x01, 0xfd, 0x0e,
    0x25, 0xd5, 0x04, 0x51, 0x54, 0x60, 0x0c, 0xb7, 0x16, 0xcc, 0x8c, 0xaf, 0xc1, 0xff, 0x19, 0x4d,
    0x5c, 0xf5, 0x14, 0x3b, 0x87, 0x56, 0x70, 0xe3, 0x87, 0xbe, 0xa3, 0x62, 0x84, 0x36, 0xc2, 0x17,
    0xe9, 0xe2, 0x40, 0xca, 0xa8, 0x80, 0xf5, 0x54, 0x76, 0x74, 0x40, 0x4d, 0x21, 0x56, 0xb8, 0x20,
    0x4b, 0x89, 0x21, 0x81, 0x09, 0xa6, 0x77, 0x28, 0x5c, 0x0a, 0xea, 0xd7, 0xf6, 0x8b, 0x04, 0x8c,
    0x62, 0x23, 0xe4, 0xe4, 0xf3, 0x79, 0x24, 0xbe, 0x70, 0xb4, 0x77, 0x90, 0x3b, 0xf5, 0x88, 0x5a,
    0xbb, 0x48, 0x72, 0x17, 0x3e, 0x6c, 0xe1, 0x4d, 0xf6, 0x6b, 0x04, 0x12, 0xc1, 0x02, 0x60, 0x22,
    0xf6, 0x25, 0xb8, 0x97, 0x80, 0x24, 0xff, 0xe2, 0x00, 0xfb, 0x6f, 0x6b, 0xca, 0x2b, 0x18, 0xf2,
    0x92, 0xc7, 0x6e, 0x4d, 0x22, 0xa9, 0x98, 0x85, 0xc5, 0x71, 0xfd, 0x22, 0x83, 0x4b, 0x8a, 0x38,
    0xdb, 0xf9, 0xe3, 0xd2, 0x01, 0x0e, 0x44, 0x4e, 0x7e, 0xed, 0xa0, 0x26, 0xb3, 0x2d, 0xc6, 0x25,
    0x8b, 0x0b, 0xd1, 0x99, 0x13, 0x73, 0x60, 0x69, 0x22, 0xa0, 0xe8, 0x6d, 0x85, 0xe7, 0x20, 0x97,
    0xf6, 0xd3, 0x3c, 0xf0, 0x45, 0x30, 0xcf, 0x2b, 0x38, 0xa0, 0xd6, 0xb4, 0x7b, 0x09, 0x54, 0x95,
    0xa5, 0x10, 0x56, 0xe7, 0xfb, 0xe9, 0x1c, 0x1d, 0xb0, 0xb2, 0x6a, 0x97, 0x65, 0xba, 0xd1, 0xdd,
    0xd7, 0xe5, 0xff, 0x43, 0x3d, 0x2a, 0x79, 0xa6, 0xaa, 0x06, 0xb6, 0x88, 0x5d, 0x14, 0xb7, 0xc3,
    0xa9, 0x5d, 0x7f, 0x39, 0x5d, 0xd5, 0x02, 0x03, 0x01, 0x00, 0x01, 0x02, 0x82, 0x01, 0x00, 0x49,
    0x99, 0x85, 0xb9, 0xd6, 0xbc, 0xa9, 0xc5, 0x7b, 0xf2, 0xd1, 0x1f, 0x61, 0x9a, 0x8b, 0xea, 0x2d,
    0xcb, 0x03, 0x31, 0x3d, 0xad, 0x02, 0x9f, 0x50, 0xa6, 0x2b, 0x4e, 0x5e, 0x55, 0x90, 0xd4, 0xa0,
    0x07, 0x43, 0x48, 0x67, 0x6f, 0x47, 0xbb, 0x92, 0xaa, 0xd9, 0x4a, 0x1c, 0xb9, 0xbc, 0xa4, 0xe2,
    0x3c, 0x7e, 0x28, 0xd6, 0xf1, 0x01, 0xbe, 0x7c, 0xe7, 0xb3, 0xc6, 0xfb, 0xb0, 0xca, 0xf4, 0x18,
    0x3e, 0x82, 0x69, 0x71, 0xc0, 0x13, 0x23, 0x4a, 0xbf, 0x75, 0x84, 0x75, 0x01, 0x0d, 0xfa, 0x16,
    0xeb, 0xec, 0xf5, 0x89, 0x6a, 0x17, 0xa0, 0x6f, 0x03, 0xb2, 0x14, 0xa0, 0x8b, 0x63, 0xc0, 0xb0,
    0xb9, 0x36, 0xa9, 0xb0, 0x7c, 0xc8, 0x42, 0x97, 0x03, 0xaa, 0xc0, 0x69, 0x27, 0x93, 0xd5, 0xfb,
    0x30, 0xd7, 0x06, 0x4f, 0xf0, 0x86, 0x47, 0xaa, 0x2e, 0xcd, 0xff, 0x58, 0x60, 0x71, 0x05, 0x00,
    0xcf, 0x74, 0x31, 0xb4, 0x19, 0x6e, 0xed, 0xcc, 0xbe, 0x15, 0xc8, 0xdc, 0xbc, 0xb2, 0xc9, 0x27,
    0xa6, 0x85, 0xd2, 0x30, 0xae, 0xe8, 0x06, 0x05, 0x67, 0xac, 0x8e, 0xcb, 0x5c, 0xb7, 0x90, 0x6a,
    0x33, 0x4a, 0x51, 0xff, 0x72, 0x4e, 0x2f, 0xfb, 0xba, 0x74, 0x49, 0x93, 0xe9, 0xb9, 0x8c, 0x8f,
    0x8f, 0xd0, 0x12, 0x9e, 0xad, 0x1b, 0xbb, 0x14, 0x43, 0x15, 0xda, 0x8c, 0x50, 0xbc, 0x87, 0x00,
    0x2d, 0xd4, 0x38, 0xa9, 0x08, 0x9c, 0xf1, 0xd6, 0x90, 0xae, 0x1b, 0x92, 0xd4, 0x52, 0x38, 0xed,
    0x70, 0xa5, 0x3c, 0x1b, 0x22, 0xcf, 0x43, 0x70, 0x00, 0xf4, 0x6f, 0x38, 0x45, 0x29, 0x18, 0xf9,
    0x6e, 0x3c, 0x8e, 0xaa, 0x54, 0x0f, 0xec, 0x04, 0x36, 0x3e, 0x2a, 0x4e, 0xb5, 0x6d, 0x58, 0xa6,
    0xc1, 0x88, 0x8d, 0x9d, 0xeb, 0xac, 0xe4, 0xac, 0x2c, 0x5a, 0x81, 0x05, 0x83, 0x95, 0xd5, 0x02,
    0x81, 0x81, 0x00, 0xdd, 0xb4, 0x8f, 0x06, 0xeb, 0xe9, 0xb4, 0x3a, 0x01, 0x3d, 0x31, 0xa7, 0x82,
    0x6d, 0xc1, 0x6e, 0xdd, 0x81, 0x0c, 0xab, 0x50, 0x70, 0x82, 0x00, 0x4c, 0x98, 0x8f, 0x80, 0xce,
    0x2f, 0x9a, 0x5e, 0x9d, 0x53, 0x32, 0x27, 0x26, 0xae, 0x38, 0xd1, 0x18, 0xf5, 0x3b, 0xaa, 0xe3,
    0x4a, 0x73, 0x67, 0x94, 0xdf, 0x05, 0x30, 0x38, 0xd8, 0x7a, 0xcd, 0xe4, 0x04, 0x4f, 0xef, 0x3d,
    0x60, 0x6d, 0x5a, 0x82, 0x2f, 0x97, 0xb2, 0x46, 0x91, 0x56, 0xc3, 0x9e, 0x10, 0xb3, 0xd1, 0x57,
    0x09, 0x85, 0x98, 0xd5, 0xfe, 0x53, 0x44, 0xd7, 0x33, 0x9c, 0x2e, 0xac, 0x33, 0x9d, 0x9f, 0x63,
    0x5f, 0x51, 0xea, 0xc3, 0x9e, 0x0a, 0x19, 0x09, 0x09, 0x57, 0xef, 0x96, 0xff, 0x05, 0xf4, 0xb1,
    0xe7, 0xa3, 0x2d, 0x4b, 0xa3, 0xfb, 0xaf, 0xd8, 0x68, 0x6c, 0x96, 0x58, 0x26, 0x87, 0xb1, 0xc2,
    0x4c, 0x7a, 0x0f, 0x02, 0x81, 0x81, 0x00, 0xcd, 0x9e, 0xbe, 0x60, 0x73, 0xf4, 0xf7, 0x0d, 0x75,
    0xf7, 0xf4, 0xaf, 0x2e, 0x8f, 0x23, 0xde, 0x01, 0x09, 0xde, 0x3c, 0xf3, 0x17, 0x0f, 0xad, 0xd7,
    0x97, 0x7d, 0xf9, 0x62, 0x09, 0x42, 0xb8, 0xfe, 0x51, 0xb6, 0x29, 0xf5, 0xb4, 0xb8, 0xd8, 0x3c,
    0x38, 0x8a, 0x3d, 0x7a, 0x5c, 0x1f, 0x19, 0x88, 0x7b, 0xf6, 0xbc, 0x2d, 0x61, 0xfc, 0xe8, 0x2a,
    0xce, 0x81, 0x45, 0x24, 0x25, 0xf7, 0x32, 0xea, 0xf9, 0xcf, 0x85, 0xe9, 0x97, 0x3f, 0xa0, 0x61,
    0xa9, 0x88, 0xc5, 0xc3, 0x02, 0x58, 0x4d, 0x0e, 0xe8, 0x46, 0x6c, 0x7c, 0x91, 0xd4, 0xd3, 0x02,
    0x64, 0x0c, 0x25, 0x6b, 0xe6, 0x06, 0xfb, 0x1e, 0x2f, 0x0d, 0x72, 0x37, 0x93, 0x75, 0x1f, 0x07,
    0xed, 0x49, 0x3a, 0x6f, 0x78, 0x16, 0x1e, 0x38, 0x34, 0xd5, 0xae, 0xba, 0xba, 0x57, 0xb6, 0xe8,
    0xae, 0x8b, 0x1a, 0x5c, 0xb2, 0xdd, 0xdb, 0x02, 0x81, 0x80, 0x6a, 0xa8, 0xd7, 0xfa, 0x63, 0x7a,
    0xae, 0x8b, 0x0d, 0x57, 0x8c, 0x50, 0xe3, 0x2d, 0xbc, 0x56, 0x82, 0xd7, 0xf7, 0xe9, 0x5f, 0x2c,
    0x91, 0x4e, 0x65, 0x8b, 0x2b, 0xd6, 0xb2, 0xdb, 0x31, 0xef, 0xfc, 0xce, 0x2e, 0x9d, 0xa9, 0x3d,
    0x3d, 0xf6, 0x52, 0x84, 0x80, 0x6d, 0x29, 0x26, 0x03, 0x39, 0x3c, 0xe4, 0xc2, 0x51, 0x3d, 0xb7,
    0xdf, 0xf4, 0xb7, 0x92, 0xdf, 0x85, 0xe0, 0x48, 0x48, 0xb3, 0xb7, 0x58, 0x00, 0x29, 0xf3, 0x4b,
    0x2e, 0xab, 0xb3, 0x9a, 0xa3, 0x77, 0xbd, 0xe0, 0xc5, 0xd6, 0x0e, 0x75, 0x69, 0x48, 0x00, 0x24,
    0x43, 0x2a, 0x2d, 0x0c, 0x33, 0xf3, 0x9f, 0x52, 0x17, 0x4d, 0xd3, 0x48, 0x6f, 0xe1, 0x35, 0x78,
    0xba, 0x46, 0x78, 0xa5, 0x3e, 0x0f, 0x47, 0x9b, 0x81, 0xe4, 0x63, 0xb4, 0x83, 0x7c, 0x48, 0xa7,
    0x8c, 0x3e, 0x14, 0x30, 0x8d, 0x2d, 0x96, 0xa5, 0x46, 0x3f, 0x02, 0x81, 0x80, 0x1e, 0x18, 0x35,
    0xd4, 0xf8, 0x23, 0xca, 0x64, 0xf5, 0xf7, 0x2c, 0xa0, 0xd7, 0x37, 0xac, 0x10, 0x3a, 0x26, 0xaf,
    0x98, 0x4c, 0x1b, 0xfb, 0xf7, 0x7d, 0xae, 0x76, 0x89, 0xa1, 0x87, 0xa9, 0x74, 0x5a, 0x04, 0xab,
    0x9c, 0xc8, 0x91, 0x82, 0xdc, 0x63, 0x34, 0x03, 0x47, 0xac, 0x38, 0xff, 0x74, 0x45, 0x3d, 0x9f,
    0x87, 0x3b, 0x3d, 0x34, 0x3e, 0xe6, 0xc5, 0x02, 0xb6, 0x93, 0xeb, 0xda, 0x9a, 0x61, 0x39, 0xde,
    0xdd, 0xc2, 0xaa, 0x98, 0x6d, 0x68, 0xdd, 0xdf, 0x5e, 0xd2, 0x83, 0xed, 0x58, 0x99, 0xed, 0xf5,
    0x20, 0xbb, 0xba, 0xbc, 0x63, 0x85, 0xde, 0x0e, 0xc9, 0x0b, 0x59, 0xc7, 0x7b, 0xc9, 0x97, 0x29,
    0x68, 0xa6, 0x29, 0xb6, 0xe2, 0xab, 0xce, 0x57, 0x01, 0x6e, 0x7f, 0x2c, 0xfd, 0x8f, 0x4c, 0x6c,
    0x59, 0xfe, 0x8a, 0x77, 0x7c, 0x15, 0xe2, 0x36, 0x09, 0xcd, 0xb7, 0x80, 0x31, 0x02, 0x81, 0x80,
    0x5d, 0x76, 0xb4, 0x4d, 0x7f, 0x88, 0x01, 0x15, 0x80, 0x84, 0x61, 0xbb, 0x9f, 0x44, 0x6d, 0x50,
    0xff, 0xe7, 0xcc, 0x8b, 0x85, 0x16, 0x09, 0xcb, 0x3c, 0x50, 0xe2, 0x47, 0xaa, 0x8b, 0x2b, 0xac,
    0x3c, 0x5b, 0x53, 0x2f, 0xe5, 0xa5, 0x91, 0x3c, 0x2a, 0xe1, 0xa2, 0xd7, 0x4b, 0xe3, 0x76, 0xcb,
    0x32, 0x11, 0xba, 0x1b, 0xea, 0x34, 0x50, 0xd2, 0xf6, 0x62, 0xcb, 0x86, 0xb5, 0x86, 0x5d, 0x32,
    0x75, 0xc7, 0x58, 0xd1, 0x87, 0x86, 0x11, 0xed, 0xef, 0x67, 0x39, 0x15, 0xb7, 0xcb, 0x32, 0x21,
    0x1b, 0x8a, 0x84, 0x19, 0xf3, 0x25, 0x84, 0x79, 0x59, 0xba, 0x09, 0x77, 0xd9, 0x54, 0x73, 0xce,
    0xa4, 0x97, 0xc5, 0x12, 0x71, 0x1a, 0x2b, 0x2c, 0x64, 0x18, 0xda, 0xf1, 0x21, 0x41, 0x61, 0x2e,
    0x84, 0x6d, 0x8e, 0xa4, 0x9b, 0x95, 0x27, 0x98, 0x5a, 0x12, 0xfa, 0x10, 0x57, 0x5c, 0x09, 0x0d,
];
const SERVER_CERT_PEM: &str = "-----BEGIN CERTIFICATE-----\nMIIDKTCCAhGgAwIBAgIUdgJT+ErL+6RRyXwTGqhY2eI+hcwwDQYJKoZIhvcNAQEL\nBQAwIzEhMB8GA1UEAwwYTlZJRElBIEdhbWVTdHJlYW0gU2VydmVyMCAXDTI2MTEx\nODA0NTEzNloYDzIxMjYxMDI1MDQ1MTM2WjAjMSEwHwYDVQQDDBhOVklESUEgR2Ft\nZVN0cmVhbSBTZXJ2ZXIwggEiMA0GCSqGSIb3DQEBAQUAA4IBDwAwggEKAoIBAQCy\nExDYW3jHjOcZcV3wzVQXuCVIvziuIOlbn3Knzx5gjbKrrk1an3gB/Q4l1QRRVGAM\ntxbMjK/B/xlNXPUUO4dWcOOHvqNihDbCF+niQMqogPVUdnRATSFWuCBLiSGBCaZ3\nKFwK6tf2iwSMYiPk5PN5JL5wtHeQO/WIWrtIchc+bOFN9msEEsECYCL2JbiXgCT/\n4gD7b2vKKxjyksduTSKpmIXFcf0ig0uKONv549IBDkROfu2gJrMtxiWLC9GZE3Ng\naSKg6G2F5yCX9tM88EUwzys4oNa0ewlUlaUQVuf76RwdsLJql2W60d3X5f9DPSp5\npqoGtohdFLfDqV1/OV3VAgMBAAGjUzBRMB0GA1UdDgQWBBTKWwYEwn9OuaMz4vlw\nItFoDjz/NTAfBgNVHSMEGDAWgBTKWwYEwn9OuaMz4vlwItFoDjz/NTAPBgNVHRMB\nAf8EBTADAQH/MA0GCSqGSIb3DQEBCwUAA4IBAQAxSgDpmBQBAzivH0+aB0R6+esJ\n0bBeBwwuay6CBqFTEot/jPJurBcOeRLiZbk69T00S8UaR2MoBL211Lua/AdgNUgu\nf0qyrm6eSBGnaI9H7vnz17NsgQE1xmDpbTeu9iqxrcOE1N3l/c48+qSGLJ0SIA36\nbqrGgntohh0sSwl7H5HXmXzNRKVfBOtOvQjpX2ssj1673ADo2AkfSWudtXxMoloI\nqmofJOasPze0X6LEfNDoTpmxwsRAv+10sxKMM4IE1OKWwh9JdYlIVZRxFk/KTid8\nEQoKMpD9dXgG0rZcVj6FDTE/6q7Dugtx0kUY3GX7k0zS4ipGYHTVW8tTZYp+\n-----END CERTIFICATE-----\n";
/// The PKCS#8 DER form of the client's RSA key.
const CLIENT_KEY_DER: [u8; 1215] = [
    0x30, 0x82, 0x04, 0xbb, 0x02, 0x01, 0x00, 0x30, 0x0d, 0x06, 0x09, 0x2a, 0x86, 0x48, 0x86, 0xf7,
    0x0d, 0x01, 0x01, 0x01, 0x05, 0x00, 0x04, 0x82, 0x04, 0xa5, 0x30, 0x82, 0x04, 0xa1, 0x02, 0x01,
    0x00, 0x02, 0x82, 0x01, 0x01, 0x00, 0x97, 0x33, 0x7d, 0xe3, 0xe6, 0x7e, 0xf0, 0x9a, 0x58, 0xe0,
    0x0f, 0x4c, 0xd4, 0x1c, 0x5b, 0x64, 0xe5, 0x0c, 0x08, 0x96, 0xdc, 0x07, 0x79, 0x0a, 0x21, 0xa9,
    0x89, 0x62, 0xc6, 0x3a, 0x5f, 0xd6, 0x79, 0xac, 0xe5, 0xc8, 0xa2, 0xf3, 0x5a, 0xf9, 0x7d, 0x80,
    0x18, 0x5a, 0x05, 0xe5, 0x5b, 0x5c, 0x5a, 0xbf, 0x4e, 0x79, 0x3f, 0xa3, 0xe2, 0x07, 0x2c, 0xae,
    0xde, 0x21, 0x1e, 0x1c, 0x45, 0xcc, 0x1a, 0x4a, 0xbf, 0x1c, 0x67, 0xde, 0x1b, 0xd6, 0x32, 0xf3,
    0xc9, 0x38, 0x9e, 0x44, 0xe6, 0xb0, 0xee, 0x8e, 0xe6, 0xed, 0x2f, 0x37, 0x9c, 0x2e, 0x18, 0xe3,
    0x97, 0xb3, 0xa9, 0x00, 0x86, 0xef, 0x38, 0xbd, 0x69, 0x36, 0xe9, 0x19, 0xd8, 0x26, 0x3f, 0xb5,
    0x1c, 0x3f, 0xfa, 0x1b, 0x7e, 0xa6, 0x14, 0xa3, 0x0d, 0xe4, 0x58, 0xf7, 0xff, 0x8a, 0x2a, 0xc0,
    0x95, 0xec, 0xba, 0x96, 0x80, 0xbd, 0x53, 0x85, 0x37, 0x58, 0xb9, 0x14, 0x11, 0x4f, 0xf7, 0x01,
    0x38, 0x11, 0x52, 0x1d, 0x8e, 0x69, 0x8c, 0xa0, 0x24, 0x2f, 0xdd, 0x9b, 0x94, 0xe7, 0xf6, 0x40,
    0x63, 0x68, 0x33, 0x24, 0x4d, 0x86, 0x55, 0x5b, 0x84, 0xe2, 0xe0, 0x47, 0x94, 0x1d, 0x8d, 0xd8,
    0x52, 0xc0, 0x69, 0x15, 0x97, 0x73, 0x66, 0x69, 0xa6, 0x7a, 0x1d, 0x0e, 0x30, 0x23, 0xc7, 0xff,
    0xce, 0xc7, 0x6e, 0xd7, 0x5e, 0xe0, 0xd4, 0x99, 0x11, 0xe1, 0x12, 0x88, 0x21, 0x16, 0x6c, 0xf8,
    0x29, 0x9d, 0x01, 0x49, 0x87, 0xf7, 0x5d, 0x0f, 0x25, 0xa0, 0x83, 0xf7, 0xfa, 0xbc, 0xf8, 0x37,
    0x6e, 0xf0, 0x15, 0xee, 0x0d, 0x40, 0x01, 0x68, 0xfa, 0xe2, 0x78, 0xe0, 0x01, 0x97, 0x75, 0x8a,
    0xb3, 0xfc, 0x59, 0x86, 0x59, 0x30, 0xca, 0x8c, 0x74, 0x13, 0x9d, 0x8f, 0x11, 0x00, 0xb3, 0x50,
    0x59, 0xad, 0x58, 0x7a, 0xd1, 0xe1, 0x02, 0x03, 0x01, 0x00, 0x01, 0x02, 0x81, 0xff, 0x38, 0xb3,
    0x16, 0x82, 0x5f, 0xed, 0x3a, 0x4c, 0xa7, 0x07, 0x5e, 0xb5, 0x70, 0xd5, 0x31, 0x70, 0xa4, 0x73,
    0xde, 0xc4, 0xb3, 0xbe, 0x19, 0xa5, 0xb2, 0xf9, 0xe0, 0x8b, 0x29, 0xca, 0xba, 0x25, 0xb3, 0x7b,
    0x22, 0xb0, 0x1a, 0x6b, 0x27, 0xb2, 0x67, 0x5d, 0xa1, 0xc4, 0x20, 0x71, 0xe1, 0xd0, 0xc0, 0x36,
    0xfd, 0x36, 0x7a, 0xa6, 0xfa, 0x1b, 0xb6, 0xa5, 0xdc, 0xa6, 0x8e, 0xa4, 0x0b, 0x88, 0x7e, 0x53,
    0x89, 0x57, 0x1d, 0x9c, 0x2c, 0xd4, 0x26, 0x47, 0x45, 0x2d, 0xf6, 0x2b, 0xe0, 0x56, 0x79, 0x1f,
    0x1d, 0x79, 0xd4, 0x3b, 0x06, 0x56, 0x42, 0xff, 0x15, 0xe4, 0x49, 0x7b, 0xe9, 0x1d, 0xcc, 0x29,
    0x3b, 0x4b, 0x5c, 0x1e, 0x54, 0xf0, 0x02, 0xf3, 0xe7, 0xa4, 0x16, 0x26, 0x39, 0x58, 0x0e, 0x65,
    0x16, 0xd0, 0x8a, 0x8c, 0x75, 0x47, 0x5a, 0xc0, 0xdd, 0x77, 0xe8, 0x80, 0x87, 0xc5, 0xe3, 0xfd,
    0x84, 0x8c, 0x23, 0xe8, 0x61, 0xe2, 0x17, 0x0b, 0x78, 0xf0, 0x85, 0x2b, 0x30, 0x39, 0x32, 0x8c,
    0x04, 0x6c, 0xcd, 0xbb, 0x17, 0x81, 0xe8, 0x3b, 0x82, 0x35, 0x0d, 0x01, 0x18, 0x99, 0x24, 0x1c,
    0xec, 0x4a, 0xee, 0xe9, 0x99, 0xcd, 0x70, 0xd8, 0xa6, 0x29, 0xea, 0x6d, 0x4e, 0x41, 0xde, 0xc0,
    0x67, 0x0f, 0xfb, 0x4d, 0xf6, 0xe2, 0x39, 0xe0, 0xb4, 0x25, 0xd7, 0x5f, 0xff, 0x4c, 0xf9, 0x25,
    0x55, 0x16, 0x7e, 0x6f, 0x22, 0x54, 0x9c, 0x7b, 0x36, 0xcb, 0x72, 0xbd, 0xca, 0x71, 0x55, 0xac,
    0x40, 0xa4, 0x1d, 0x98, 0xc5, 0x70, 0x4c, 0x9b, 0xc4, 0x4a, 0x4e, 0x32, 0x9f, 0x5a, 0x42, 0x66,
    0xc1, 0xa0, 0xdc, 0x20, 0x01, 0x6f, 0x50, 0xc5, 0xb2, 0xbd, 0x2d, 0x23, 0x17, 0x8a, 0xa7, 0xef,
    0xc1, 0x8b, 0x70, 0xcd, 0x9e, 0xbc, 0xe8, 0x17, 0x22, 0x49, 0x4f, 0xe2, 0x01, 0x02, 0x81, 0x81,
    0x00, 0xc5, 0x0c, 0xb6, 0xb2, 0x6d, 0x56, 0x5f, 0x96, 0xb8, 0xd3, 0x7e, 0xc1, 0x3f, 0x25, 0xa3,
    0x63, 0xc9, 0xe7, 0x31, 0xde, 0xf3, 0xdd, 0xc7, 0x69, 0x26, 0x98, 0xf6, 0x85, 0xb1, 0x2d, 0x7b,
    0xfb, 0x24, 0x89, 0xc4, 0xe2, 0xdf, 0xa7, 0x09, 0x43, 0x09, 0xb1, 0x89, 0x0a, 0xeb, 0xeb, 0xe8,
    0xe1, 0xd3, 0xfd, 0xe1, 0xfb, 0xc8, 0xf5, 0xb9, 0xa2, 0xb8, 0x6c, 0xc3, 0xa1, 0x6f, 0x62, 0x73,
    0x55, 0x94, 0x99, 0x8a, 0x34, 0x41, 0x8c, 0x2a, 0x0a, 0x23, 0xac, 0xac, 0x89, 0xce, 0x16, 0xce,
    0x10, 0x59, 0xac, 0xc3, 0x5f, 0xb2, 0xf7, 0x52, 0x6c, 0x3c, 0x07, 0xb6, 0xf5, 0xc4, 0x35, 0xd7,
    0x70, 0x77, 0xc8, 0x5e, 0x46, 0x98, 0x74, 0xc1, 0xdb, 0x2c, 0x6d, 0xd9, 0xcf, 0xfa, 0xde, 0xb4,
    0x9d, 0xd9, 0xfe, 0xc0, 0xe5, 0x73, 0xf0, 0xf6, 0xc7, 0xae, 0x97, 0xba, 0x7e, 0x97, 0xc9, 0xb7,
    0x4d, 0x02, 0x81, 0x81, 0x00, 0xc4, 0x6f, 0x69, 0xe1, 0xdf, 0xdc, 0x4c, 0xf2, 0xa6, 0x5e, 0xe4,
    0x05, 0x6d, 0x58, 0xb1, 0xfa, 0x10, 0xab, 0x0a, 0x64, 0x0e, 0xa8, 0xbf, 0x86, 0xd0, 0x58, 0xfb,
    0xb6, 0x59, 0x66, 0x6d, 0x45, 0x39, 0x96, 0xe9, 0x95, 0xb8, 0x14, 0x73, 0x9d, 0x12, 0x6b, 0xe1,
    0xae, 0xa6, 0x41, 0x17, 0x69, 0x1a, 0x65, 0xb4, 0xfd, 0x4d, 0xc8, 0x9b, 0x55, 0xe2, 0xe0, 0x90,
    0x69, 0xe0, 0xba, 0xaf, 0x13, 0x54, 0x24, 0x0c, 0x62, 0x9c, 0xec, 0xf5, 0x02, 0x4c, 0x76, 0x9f,
    0x01, 0x6f, 0x1a, 0x16, 0xbe, 0xad, 0xbe, 0x26, 0xbf, 0xd5, 0xb3, 0xa0, 0x38, 0x8c, 0x0f, 0x8a,
    0xea, 0x20, 0x6b, 0x11, 0xad, 0x2f, 0x9d, 0xe7, 0x32, 0x3b, 0xbe, 0x46, 0x3e, 0x18, 0x8f, 0x7b,
    0x7a, 0x09, 0xa6, 0xed, 0x6e, 0x47, 0x47, 0x44, 0x90, 0x4e, 0x05, 0xf0, 0xc7, 0x9d, 0x2d, 0xd8,
    0xd8, 0x3a, 0xe8, 0x42, 0xe5, 0x02, 0x81, 0x80, 0x5b, 0x00, 0xeb, 0x23, 0x6e, 0x61, 0x94, 0x95,
    0xec, 0x58, 0x28, 0xd3, 0x20, 0xd1, 0xc6, 0x2a, 0xe0, 0xe5, 0x38, 0x60, 0x0a, 0x6a, 0x63, 0x9d,
    0x09, 0x69, 0x5d, 0x79, 0x13, 0x01, 0xb9, 0x9f, 0x9c, 0x19, 0x50, 0x67, 0xa2, 0xf8, 0xe6, 0xcb,
    0x22, 0x1f, 0xee, 0xf5, 0xaf, 0x4d, 0x6d, 0x69, 0x56, 0x59, 0x8b, 0x53, 0x98, 0x54, 0xfb, 0xdd,
    0xcd, 0xa4, 0xd5, 0x98, 0xa9, 0xf3, 0x62, 0xe6, 0xa4, 0x51, 0x60, 0xc5, 0x8f, 0x7c, 0x27, 0x32,
    0x35, 0x95, 0x9a, 0xbd, 0xae, 0x03, 0x54, 0x39, 0xb2, 0xe0, 0x99, 0xfe, 0x89, 0x8d, 0xb5, 0x70,
    0x2d, 0x2d, 0x36, 0xef, 0x3c, 0x25, 0xcd, 0x90, 0xb0, 0x91, 0x46, 0x10, 0xfe, 0x79, 0xf5, 0xc9,
    0xbe, 0x34, 0x21, 0x82, 0xef, 0x0e, 0x89, 0x85, 0xd9, 0x56, 0xd1, 0x49, 0x67, 0x09, 0x63, 0x3f,
    0x87, 0x3f, 0xa5, 0xae, 0xaf, 0x75, 0x46, 0x85, 0x02, 0x81, 0x80, 0x0b, 0xd1, 0x84, 0x36, 0x51,
    0xc8, 0xa8, 0x5c, 0x85, 0x03, 0xfa, 0x86, 0x15, 0x11, 0x1c, 0x0c, 0x26, 0x8a, 0x93, 0xe2, 0x77,
    0x3b, 0x51, 0xe2, 0xa3, 0x90, 0x66, 0xfc, 0x8e, 0x9e, 0x69, 0xfe, 0x9b, 0x3b, 0x68, 0x2c, 0x58,
    0xd9, 0xea, 0x26, 0xce, 0x1f, 0xed, 0x81, 0x1b, 0x81, 0x99, 0x0d, 0xfa, 0xc7, 0x99, 0xbf, 0x0f,
    0xb9, 0xfd, 0x16, 0x8a, 0xc2, 0xe6, 0x0d, 0x68, 0xb6, 0xf2, 0xa7, 0xa0, 0x0d, 0x57, 0x2d, 0x6b,
    0xb1, 0x9a, 0x00, 0x1c, 0x67, 0x9a, 0xa3, 0x74, 0x72, 0xc6, 0x61, 0x8c, 0x84, 0x7f, 0x42, 0x55,
    0x72, 0x2c, 0x36, 0x9a, 0xbe, 0xa8, 0xa5, 0xf3, 0x73, 0x5d, 0xa9, 0xe4, 0xce, 0x84, 0x45, 0x72,
    0x70, 0xbd, 0x3b, 0x29, 0x31, 0x20, 0xc5, 0xb3, 0xe4, 0xf6, 0x2e, 0x07, 0x5d, 0xd3, 0x53, 0x37,
    0x4e, 0x86, 0x31, 0x0c, 0x54, 0xe0, 0xd2, 0x09, 0xa1, 0x45, 0xbd, 0x02, 0x81, 0x81, 0x00, 0xbf,
    0x50, 0x90, 0x42, 0xa0, 0xc9, 0x68, 0x47, 0x97, 0x55, 0xb6, 0xb1, 0x84, 0xcd, 0x9c, 0xe6, 0x6f,
    0x79, 0x31, 0x82, 0x24, 0xfc, 0x44, 0x6a, 0xe9, 0xc2, 0xcc, 0xc2, 0x5f, 0xce, 0x4d, 0x61, 0xa4,
    0xbd, 0x23, 0xa9, 0xcb, 0x3c, 0xe1, 0xad, 0x05, 0xea, 0xeb, 0x7e, 0xb9, 0xf6, 0x03, 0xef, 0xae,
    0xef, 0xb4, 0x5a, 0xc0, 0x44, 0xca, 0x05, 0xf9, 0x05, 0x68, 0xdc, 0x96, 0x95, 0x5b, 0x3c, 0xfd,
    0x1c, 0x83, 0xf4, 0x4c, 0xe0, 0x7c, 0xec, 0x5d, 0x07, 0xd4, 0x5c, 0xda, 0xef, 0x4d, 0x31, 0xcf,
    0x92, 0x4e, 0x73, 0xaa, 0x84, 0x36, 0x3c, 0x08, 0x86, 0x1f, 0xf9, 0x34, 0x1f, 0x76, 0x61, 0xcf,
    0x15, 0x9f, 0x0f, 0x7f, 0x58, 0x9a, 0xde, 0x13, 0xf6, 0xef, 0x4e, 0x8a, 0x97, 0x13, 0xc9, 0xa8,
    0x30, 0xae, 0xb6, 0x6e, 0xfd, 0x50, 0xc0, 0xbd, 0x2e, 0x7c, 0xb6, 0x09, 0x43, 0xa8, 0x26,
];
const CLIENT_CERT_PEM: &str = "-----BEGIN CERTIFICATE-----\nMIIDKTCCAhGgAwIBAgIUVjMTuF3mqTTPcISJud0w/aNYX4IwDQYJKoZIhvcNAQEL\nBQAwIzEhMB8GA1UEAwwYTlZJRElBIEdhbWVTdHJlYW0gQ2xpZW50MCAXDTI2MTEx\nODA0NTEzNloYDzIxMjYxMDI1MDQ1MTM2WjAjMSEwHwYDVQQDDBhOVklESUEgR2Ft\nZVN0cmVhbSBDbGllbnQwggEiMA0GCSqGSIb3DQEBAQUAA4IBDwAwggEKAoIBAQCX\nM33j5n7wmljgD0zUHFtk5QwIltwHeQohqYlixjpf1nms5cii81r5fYAYWgXlW1xa\nv055P6PiByyu3iEeHEXMGkq/HGfeG9Yy88k4nkTmsO6O5u0vN5wuGOOXs6kAhu84\nvWk26RnYJj+1HD/6G36mFKMN5Fj3/4oqwJXsupaAvVOFN1i5FBFP9wE4EVIdjmmM\noCQv3ZuU5/ZAY2gzJE2GVVuE4uBHlB2N2FLAaRWXc2ZppnodDjAjx//Ox27XXuDU\nmRHhEoghFmz4KZ0BSYf3XQ8loIP3+rz4N27wFe4NQAFo+uJ44AGXdYqz/FmGWTDK\njHQTnY8RALNQWa1YetHhAgMBAAGjUzBRMB0GA1UdDgQWBBSrop/mVGbNdk//I64y\ni8N/x8P0LjAfBgNVHSMEGDAWgBSrop/mVGbNdk//I64yi8N/x8P0LjAPBgNVHRMB\nAf8EBTADAQH/MA0GCSqGSIb3DQEBCwUAA4IBAQB8vImf5Jih6y2O91i951mu9wk6\nTQgTGuwSJBxa+sGDKsrNs4FCHW1pJsXYGWRXvhh0iEDM8ZXsamHVKlWNcNbVodQk\nrsreFdSo4tXF3BZy09pE7ouAmNQOWKur7MXZnIBJMMZ7nFwvKgQt9R1NXBbjfzmm\noLpItRKs3/EgT9/EXvpGDXYKywSeHkQjPr0bk9O/BcKQvzN4u1iXh0/sNNhSQrib\n2Gwu5jS/PYJ21+qOo2Y3D9i3M4sl7MoWhcH4n2++pwHGYjnRL3Msv/XoWbXNn7rL\n126w0SNIo9NsyOKI3J7D/v0nE8QrQ4do16cOupYRYwJTmA4zQzhJBH6axCbT\n-----END CERTIFICATE-----\n";

const SALT: [u8; 16] = [7, 1, 2, 3, 4, 5, 6, 7, 8, 9, 10, 11, 12, 13, 14, 15];
const CHALLENGE: [u8; 16] = [0xc0; 16];
const CLIENT_SECRET: [u8; 16] = [0x5e; 16];
const SERVER_CHALLENGE: [u8; 16] = [0x33; 16];
const SERVER_SECRET: [u8; 16] = [0x44; 16];

fn der(pem_text: &str) -> Vec<u8> {
    pem::parse(pem_text).unwrap().contents().to_vec()
}

fn signature_of(cert_der: &[u8]) -> Vec<u8> {
    let (_, cert) = x509_parser::parse_x509_certificate(cert_der).unwrap();
    cert.signature_value.data.to_vec()
}

fn public_key_of(cert_der: &[u8]) -> Vec<u8> {
    let (_, cert) = x509_parser::parse_x509_certificate(cert_der).unwrap();
    cert.public_key().raw.to_vec()
}

fn pairing_key(salt: &[u8], pin: &str) -> Vec<u8> {
    let mut salted = salt.to_vec();
    salted.extend_from_slice(pin.as_bytes());
    Sha256::digest(&salted)[..16].to_vec()
}

fn ecb_encrypt(key: &[u8], data: &[u8]) -> Vec<u8> {
    Ecb::<Aes128, NoPadding>::new_from_slices(key, &[]).unwrap().encrypt_vec(data)
}

fn ecb_decrypt(key: &[u8], data: &[u8]) -> Vec<u8> {
    Ecb::<Aes128, NoPadding>::new_from_slices(key, &[]).unwrap().decrypt_vec(data).unwrap()
}

fn pem_of(tag: &str, contents: &[u8]) -> PemDocument {
    PemDocument::parse(&pem::encode(&pem::Pem::new(tag, contents.to_vec()))).unwrap()
}

fn client_key() -> PemDocument {
    pem_of("PRIVATE KEY", &CLIENT_KEY_DER)
}

fn client_cert() -> PemDocument {
    PemDocument::parse(CLIENT_CERT_PEM).unwrap()
}

fn pin_1234() -> PairPin {
    PairPin::from_array([1, 2, 3, 4]).unwrap()
}

fn version_7() -> ServerVersion {
    ServerVersion { major: 7, minor: 1, patch: 431, mini_patch: -1 }
}

fn start() -> PairingState {
    let (state, request) = start_pairing::<()>(
        &MoonlightCrypto::new(),
        &client_key(),
        &client_cert(),
        "roth",
        version_7(),
        pin_1234(),
        SALT,
    )
    .unwrap();
    assert_eq!(request.device_name, "roth");
    assert_eq!(request.salt, SALT);
    assert_eq!(request.client_cert_pem, CLIENT_CERT_PEM.as_bytes());
    assert_eq!(state.phase, PairPhase::AwaitingServerCertificate);
    state
}

/// The host's answer to the challenge, computed with the host's own key.
fn host_challenge_answer(host_key: &[u8], client_challenge: &[u8]) -> Vec<u8> {
    let mut hashed = client_challenge.to_vec();
    hashed.extend_from_slice(&signature_of(&der(SERVER_CERT_PEM)));
    hashed.extend_from_slice(&SERVER_SECRET);
    let mut answer = Sha256::digest(&hashed).to_vec();
    answer.extend_from_slice(&SERVER_CHALLENGE);
    ecb_encrypt(host_key, &answer)
}

fn host_secret() -> Vec<u8> {
    let key = RsaPrivateKey::from_pkcs8_der(&SERVER_KEY_DER).unwrap();
    let signature = key
        .sign(Pkcs1v15Sign::new::<Sha256>(), &Sha256::digest(SERVER_SECRET))
        .unwrap();
    let mut secret = SERVER_SECRET.to_vec();
    secret.extend_from_slice(&signature);
    secret
}

#[test]
fn pairing_completes_with_the_right_pin() {
    let key = pairing_key(&SALT, "1234");
    let state = start();
    assert_eq!(state.aes_key, key);

    let response1 = HostPairResponse1 { paired: PairStatus::Paired, cert: Some(SERVER_CERT_PEM.to_string()) };
    let (state, request2) = on_server_certificate::<()>(state, &response1, CHALLENGE).unwrap();
    assert_eq!(ecb_decrypt(&key, &request2.encrypted_challenge), CHALLENGE);

    let response2 = HostPairResponse2 {
        paired: PairStatus::Paired,
        encrypted_response: host_challenge_answer(&key, &CHALLENGE),
    };
    let (state, request3) = on_challenge_response::<()>(state, &response2, CLIENT_SECRET).unwrap();
    let mut expected = SERVER_CHALLENGE.to_vec();
    expected.extend_from_slice(&signature_of(&der(CLIENT_CERT_PEM)));
    expected.extend_from_slice(&CLIENT_SECRET);
    assert_eq!(
        ecb_decrypt(&key, &request3.encrypted_challenge_response_hash),
        Sha256::digest(&expected).to_vec()
    );

    let response3 = HostPairResponse3 { paired: PairStatus::Paired, server_pairing_secret: host_secret() };
    let (state, request4) = on_server_secret::<()>(state, &response3).unwrap().unwrap();
    assert_eq!(&request4.client_pairing_secret[..16], &CLIENT_SECRET);
    let client_key = RsaPublicKey::from_public_key_der(&public_key_of(&der(CLIENT_CERT_PEM))).unwrap();
    client_key
        .verify(
            Pkcs1v15Sign::new::<Sha256>(),
            &Sha256::digest(CLIENT_SECRET),
            &request4.client_pairing_secret[16..],
        )
        .unwrap();

    let (state, request5) =
        on_secret_acknowledged::<()>(state, &HostPairResponse4 { paired: PairStatus::Paired }).unwrap();
    assert_eq!(request5.device_name, "roth");
    let success = on_pair_challenge::<()>(state, &ServerPairResponse5 { paired: PairStatus::Paired }).unwrap();
    assert_eq!(success.server_certificate_pem, SERVER_CERT_PEM);
}

#[test]
fn pairing_with_a_wrong_pin_is_refused_and_unpaired() {
    let host_key = pairing_key(&SALT, "9999");
    let state = start();
    let response1 = HostPairResponse1 { paired: PairStatus::Paired, cert: Some(SERVER_CERT_PEM.to_string()) };
    let (state, request2) = on_server_certificate::<()>(state, &response1, CHALLENGE).unwrap();
    let host_view_of_challenge = ecb_decrypt(&host_key, &request2.encrypted_challenge);
    let response2 = HostPairResponse2 {
        paired: PairStatus::Paired,
        encrypted_response: host_challenge_answer(&host_key, &host_view_of_challenge),
    };
    let (state, _) = on_challenge_response::<()>(state, &response2, CLIENT_SECRET).unwrap();
    let response3 = HostPairResponse3 { paired: PairStatus::Paired, server_pairing_secret: host_secret() };
    let failure = on_server_secret::<()>(state, &response3).unwrap().unwrap_err();
    assert!(matches!(failure.error, PairError::IncorrectPin));
    assert!(failure.unpair);
}

#[test]
fn pairing_refuses_a_forged_signature() {
    let key = pairing_key(&SALT, "1234");
    let state = start();
    let response1 = HostPairResponse1 { paired: PairStatus::Paired, cert: Some(SERVER_CERT_PEM.to_string()) };
    let (state, _) = on_server_certificate::<()>(state, &response1, CHALLENGE).unwrap();
    let response2 = HostPairResponse2 {
        paired: PairStatus::Paired,
        encrypted_response: host_challenge_answer(&key, &CHALLENGE),
    };
    let (state, _) = on_challenge_response::<()>(state, &response2, CLIENT_SECRET).unwrap();
    let mut forged = host_secret();
    let last = forged.len() - 1;
    forged[last] ^= 1;
    let response3 = HostPairResponse3 { paired: PairStatus::Paired, server_pairing_secret: forged };
    let failure = on_server_secret::<()>(state, &response3).unwrap().unwrap_err();
    assert!(matches!(failure.error, PairError::Failed));
    assert!(failure.unpair);
}

#[test]
fn pairing_fails_when_the_host_does_not_pair() {
    let state = start();
    let response1 = HostPairResponse1 { paired: PairStatus::NotPaired, cert: None };
    let failure = on_server_certificate::<()>(state, &response1, CHALLENGE).unwrap_err();
    assert!(matches!(failure.error, PairError::Failed));
    assert!(!failure.unpair);
}

#[test]
fn pairing_without_certificate_is_already_in_progress() {
    let state = start();
    let response1 = HostPairResponse1 { paired: PairStatus::Paired, cert: None };
    let failure = on_server_certificate::<()>(state, &response1, CHALLENGE).unwrap_err();
    assert!(matches!(failure.error, PairError::AlreadyInProgress));
}

#[test]
fn pairing_refuses_a_certificate_that_is_no_pem() {
    let state = start();
    let response1 = HostPairResponse1 { paired: PairStatus::Paired, cert: Some("not a certificate".to_string()) };
    let failure = on_server_certificate::<()>(state, &response1, CHALLENGE).unwrap_err();
    assert!(matches!(failure.error, PairError::ServerCertificatePem));
}

#[test]
fn pairing_refuses_a_pem_that_is_no_certificate() {
    let state = start();
    let response1 = HostPairResponse1 { paired: PairStatus::Paired, cert: Some(pem::encode(&pem::Pem::new("PRIVATE KEY", SERVER_KEY_DER.to_vec()))) };
    let failure = on_server_certificate::<()>(state, &response1, CHALLENGE).unwrap_err();
    assert!(matches!(failure.error, PairError::ServerCertificateParse));
}

#[test]
fn pairing_refuses_a_partial_block() {
    let state = start();
    let response1 = HostPairResponse1 { paired: PairStatus::Paired, cert: Some(SERVER_CERT_PEM.to_string()) };
    let (state, _) = on_server_certificate::<()>(state, &response1, CHALLENGE).unwrap();
    let response2 = HostPairResponse2 { paired: PairStatus::Paired, encrypted_response: vec![0; 50] };
    let failure = on_challenge_response::<()>(state, &response2, CLIENT_SECRET).unwrap_err();
    assert!(matches!(failure.error, PairError::Decrypt));
    assert!(!failure.unpair);
}

#[test]
fn pairing_unpairs_when_the_host_stops_pairing() {
    let state = start();
    let response1 = HostPairResponse1 { paired: PairStatus::Paired, cert: Some(SERVER_CERT_PEM.to_string()) };
    let (state, _) = on_server_certificate::<()>(state, &response1, CHALLENGE).unwrap();
    let response2 = HostPairResponse2 { paired: PairStatus::NotPaired, encrypted_response: Vec::new() };
    let failure = on_challenge_response::<()>(state, &response2, CLIENT_SECRET).unwrap_err();
    assert!(matches!(failure.error, PairError::Failed));
    assert!(failure.unpair);
}

#[test]
fn pairing_start_refuses_a_bad_client_certificate() {
    let result = start_pairing::<()>(
        &MoonlightCrypto::new(),
        &client_key(),
        &pem_of("CERTIFICATE", &[1, 2, 3]),
        "roth",
        version_7(),
        pin_1234(),
        SALT,
    );
    assert!(matches!(result, Err(PairError::ClientCertificateError)));
}

#[test]
fn pairing_start_refuses_a_bad_private_key() {
    let result = start_pairing::<()>(
        &MoonlightCrypto::new(),
        &pem_of("PRIVATE KEY", &[1, 2, 3]),
        &client_cert(),
        "roth",
        version_7(),
        pin_1234(),
        SALT,
    );
    assert!(matches!(result, Err(PairError::ClientPrivateKeyPem)));
}

#[test]
fn signatures_made_by_the_client_verify() {
    let signature = sign_data(&CLIENT_KEY_DER, b"secret").unwrap();
    assert_eq!(verify_signature(b"secret", &signature, &public_key_of(&der(CLIENT_CERT_PEM))), Some(true));
    assert_eq!(verify_signature(b"other", &signature, &public_key_of(&der(CLIENT_CERT_PEM))), Some(false));
    assert_eq!(verify_signature(b"secret", &signature, &[1, 2, 3]), None);
}

#[test]
fn credentials_are_checked_whole() {
    let cert = der(CLIENT_CERT_PEM);
    assert!(check_client_credentials::<()>(&cert, &CLIENT_KEY_DER).is_ok());
    // A PKCS#8 document that names RSA but holds no readable RSA key.
    let mut broken = CLIENT_KEY_DER.to_vec();
    broken[60] ^= 0x01; // a bit of the modulus: it is no longer the product of the primes
    assert!(matches!(check_client_credentials::<()>(&cert, &broken), Err(PairError::ClientPrivateKeyPem)));
    assert!(matches!(
        check_client_credentials::<()>(&cert, &[1, 2, 3]),
        Err(PairError::ClientPrivateKeyPem)
    ));
    assert!(matches!(
        check_client_credentials::<()>(&[1, 2, 3], &CLIENT_KEY_DER),
        Err(PairError::ClientCertificateError)
    ));
}

#[test]
fn pem_documents_keep_text_and_contents() {
    let cert = client_cert();
    assert_eq!(cert.text(), CLIENT_CERT_PEM);
    assert_eq!(cert.contents(), der(CLIENT_CERT_PEM).as_slice());
    assert!(PemDocument::parse("no pem").is_err());
}

#[test]
fn old_hosts_get_credential_errors_but_no_start() {
    let old = ServerVersion { major: 6, minor: 0, patch: 0, mini_patch: 0 };
    let crypto = MoonlightCrypto::new();
    let refused = begin_pairing::<()>(&crypto, &client_key(), &pem_of("CERTIFICATE", &[1]), "roth", old, pin_1234(), SALT);
    assert!(matches!(refused, Some(Err(PairError::ClientCertificateError))));
    let refused = start_pairing::<()>(&crypto, &pem_of("PRIVATE KEY", &[1]), &client_cert(), "roth", old, pin_1234(), SALT);
    assert!(matches!(refused, Err(PairError::ClientPrivateKeyPem)));
    assert!(begin_pairing::<()>(&crypto, &client_key(), &client_cert(), "roth", old, pin_1234(), SALT).is_none());
    let started = begin_pairing::<()>(&crypto, &client_key(), &client_cert(), "roth", version_7(), pin_1234(), SALT);
    assert!(matches!(started, Some(Ok(_))));
}
