//! Reads the XML that Doxygen writes about a C or C++ code base and renders it
//! to the document nodes that the Sphinx extension turns into documentation.

pub mod strings;
pub mod xml;
pub mod doxygen;
pub mod xsd;
