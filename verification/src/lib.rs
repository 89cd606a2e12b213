//! Verified core of the Blue RDMA driver.
use vstd::prelude::*;

pub mod constants;
pub mod desc;
pub mod device;
pub mod device_protocol;
pub mod fragmenter;
pub mod mem;
pub mod ring;
pub mod send;
pub mod seq_num;
pub mod qp;
pub mod qp_table;
pub mod ack_timeout;
pub mod ack_responder;
pub mod cmd;
pub mod completion;
pub mod completion_v2;
pub mod completion_v3;
pub mod completion_worker;
pub mod meta_handler;
pub mod cq_manager;
pub mod bench_wrappers;
