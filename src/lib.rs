//! The backend of a desktop application's command bridge.
//!
//! A web frontend invokes named commands across a process boundary. This
//! library holds the fixed registry of those commands (`greet`,
//! `get_system_info`, `read_file`, `write_file`), the dispatcher that decides
//! what each request asks for, and the handlers' own computations. The host
//! performs the file I/O and supplies the system identifiers.
pub mod dispatch;
pub mod handlers;
