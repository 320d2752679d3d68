//! Parser utility functions used by this MSH parser.

pub mod general_parsers;
pub mod num_parsers;
pub mod header_section;
pub mod entities_section;
pub mod nodes_section;
pub mod elements_section;
