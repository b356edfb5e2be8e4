mod body;
mod client;
mod error;
mod headers;
mod method;
mod request;
mod response;
mod uri;

pub use body::copy_bytes;
pub use body::forward_stream_event;
pub use body::lemma_forward_stream_order;
pub use body::spec_forward_all;
pub use body::spec_forward_event;
pub use body::translate_buf_poll;
pub use body::BodyPoll;
pub use body::BufPoll;
pub use body::RusotoBody;
pub use body::SignedRequestPayload;
pub use body::StreamEvent;
pub use client::HttpClient;
pub use headers::all_values_ok;
pub use headers::header_value_ok;
pub use headers::parsed_header_name;
pub use headers::spec_field_entries;
pub use headers::spec_translate_fields;
pub use headers::translate_headers;
pub use headers::valid_header_value_byte;
pub use error::spec_message;
pub use error::DispatchError;
pub use method::parse_method;
pub use method::spec_parse_method;
pub use method::Method;
pub use request::spec_translate_ok;
pub use request::translate_request;
pub use request::SignedRequest;
pub use request::TransportRequest;
pub use response::lemma_header_round_trip;
pub use response::spec_translate_response_headers;
pub use response::translate_response;
pub use response::translate_response_headers;
pub use response::ResponseHead;
pub use uri::assemble_uri;
pub use uri::spec_uri;
