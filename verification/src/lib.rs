pub mod api;
pub mod cbor;
pub mod error;
pub mod interp;
pub mod laws;
pub mod text;
pub mod word;

pub use api::{
    decode_carv1_header, decode_carv2_header, encode_carv2_fields, CarV1Header, CarV1HeaderResult,
    CarV2Header, CarV2HeaderResult, Characteristics,
};
pub use error::{DecodeCarHeaderError, ErrorData};
