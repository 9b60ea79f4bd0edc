//! An interactive 2D charting engine on exact fixed-point arithmetic,
//! with the record-import workflow and the report catalogue of a desktop
//! application for service-desk metrics.
//!
//! # The engine
//!
//! Six chart variants (line, bar, pie, heatmap, radar, circular gauge) share
//! one scale mapper ([`charts::scale`]), one set of rules for zoom, pan and
//! selection ([`charts::interaction`]), and one way of answering what lies
//! under the pointer. A chart never draws and never reads anything. It is
//! handed a snapshot of data, the view state and the pointer, and it
//! returns layers of shapes ([`charts::shape`]) for the host to paint: the
//! base layer, which a [`charts::cache::GeometryCache`] remembers by
//! viewport size, and an overlay with tooltip and selection while the
//! pointer is inside.
//!
//! # Numbers
//!
//! Every length, coordinate, data value, zoom factor and colour channel is
//! an `i32` counted in thousandths ([`charts::numeric::UNIT`]); angles are
//! thousandths of a degree. Quotients round toward minus infinity. A
//! result that does not fit saturates at the ends of the `i32` range.
//! Every function is total: empty data, a viewport without room for a
//! plot, a total or a ceiling of zero give fewer shapes or none, never a
//! failure. The one thing the engine leaves to its host is trigonometry:
//! it gives polar shapes in polar form, and takes the direction of the
//! pointer from the centre of a round chart as an angle.
//!
//! # The application
//!
//! [`app::App`] holds what the application shows and decides, message by
//! message, what happens next; the work itself (dialogs, files, the store)
//! is named in a [`app::Command`] and left to the host.

pub mod app;
pub mod charts;
pub mod data;
pub mod importing;
pub mod message;
pub mod reports;
pub mod screens;
pub mod text;
pub mod theme;
