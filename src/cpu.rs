//! Processor time: for the whole system from `/proc/stat`, and for a container from its
//! cgroup (version 1 or 2) accounting files.
pub mod cgroup;
pub mod cgroup_v1;
pub mod cgroup_v2;
pub mod proc;
