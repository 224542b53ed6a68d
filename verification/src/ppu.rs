//! The picture processing unit. Only its address register and the map of
//! its address space exist so far.

pub mod register;
