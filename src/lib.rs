//! Safe, verified core of a binding to a non-reentrant mesh-file library:
//! status codes and errors, string and array marshalling, handle
//! lifecycles and the decisions taken around each native call.

mod array;
mod error;
mod handle;
mod marshal;

pub use array::{dimensions_match, dims_fit, dims_product, CgnsDataType, GotoContext, INTEGER};
pub use error::{decimal, decimal_digits, description, status_result, Error};
pub use handle::{
    close_step, golist_depth, lemma_close_once, mode_code, zone_size, Base, File, FileView, Mode,
    SectionInfo, Zone, MODE_MODIFY, MODE_READ, MODE_WRITE,
};
pub use marshal::{
    c_string_bytes, decoded_name, fixed_buffer_bytes, is_first_nul, lemma_c_string_round_trip,
    lemma_fixed_buffer_round_trip, raw_to_string, to_c_string, to_fixed_buffer, NAME_CAPACITY,
    SHORT_NAME_CAPACITY,
};
