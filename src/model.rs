//! The domain records, each assembled from what one query returned.

pub mod memory;
pub mod uptime;
pub mod storage;
pub mod graphicscard;
pub mod processorusage;
pub mod os;
pub mod winntkernel;
pub mod names;
pub mod screenres;
