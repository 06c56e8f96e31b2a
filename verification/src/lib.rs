//! Planning of composite disk images.
//!
//! A composite disk image stitches several partition images together without
//! copying them. This crate holds the decisions of that work and none of its
//! I/O: it classifies partition images by their magic bytes, computes their
//! logical sizes, resolves partition descriptors into partition records, and
//! sequences the creation of the output files. Every operation on a file is
//! handed to the caller as a request, and its outcome comes back as a reply.
//!
//! Beside the planner stand a few pieces that services around virtual
//! machines share: the command line of a server of file descriptors, the
//! identity of a Microfuchsia instance, and the outcomes of a request for
//! attestation.

pub mod io;
pub mod image_type;
pub mod error;
pub mod sparse;
pub mod size;
pub mod fd_path;
pub mod guid;
pub mod partition;
pub mod resolver;
pub mod composite;
pub mod fd_server;
pub mod instance_starter;
pub mod attestation;
