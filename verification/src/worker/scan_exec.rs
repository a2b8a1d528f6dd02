//! The scan node of a physical plan, and what it asks of a scan source.

use super::error::WorkerRuntimeError;
use crate::control::lease::BackendLeaseSlot;
use crate::protocol::scan::ProducerRole;
use crate::text::{append_decimal, decimal, owned};
use std::collections::BTreeMap;
use vstd::prelude::*;
use vstd::slice::slice_to_vec;
use vstd::string::StringExecFns;

verus! {

/// One producer channel owned by a backend-side scan producer.
#[derive(Clone, Copy, Debug, PartialEq, Eq, Structural)]
pub struct ScanProducerPeer {
    pub producer_id: u16,
    pub role: ProducerRole,
    pub peer: BackendLeaseSlot,
}

/// How a scan buffers and polls.
#[derive(Clone, Copy, Debug, PartialEq, Eq, Structural)]
pub struct WorkerScanTuning {
    pub batch_channel_capacity: usize,
    /// Nanoseconds between two polls without a frame.
    pub idle_poll_interval_ns: u128,
}

impl Default for WorkerScanTuning {
    fn default() -> (r: Self)
        ensures
            r == (WorkerScanTuning { batch_channel_capacity: 32, idle_poll_interval_ns: 50_000 }),
    {
        WorkerScanTuning { batch_channel_capacity: 32, idle_poll_interval_ns: 50_000 }
    }
}

/// Worker request for one backend-owned scan.
///
/// It holds the stable identity of the scan and the producer peers that were
/// published for it. State of the backend stays behind `scan_id`.
#[derive(Debug, PartialEq, Eq)]
pub struct OpenScanRequest {
    /// Dedicated scan slots chosen by backend-side producers for this scan.
    pub producers: Vec<ScanProducerPeer>,
    pub session_epoch: u64,
    pub scan_id: u64,
    pub page_kind: u16,
    pub page_flags: u16,
    pub tuning: WorkerScanTuning,
}

/// Makes scan nodes for the scans of one execution.
#[derive(Debug)]
pub struct WorkerPgScanExecFactory {
    pub session_epoch: u64,
    pub scan_peers: BTreeMap<u64, Vec<ScanProducerPeer>>,
    pub page_kind: u16,
    pub page_flags: u16,
    pub tuning: WorkerScanTuning,
}

/// A scan node.
#[derive(Debug, PartialEq, Eq)]
pub struct WorkerPgScanExec {
    pub producers: Vec<ScanProducerPeer>,
    pub session_epoch: u64,
    pub scan_id: u64,
    pub page_kind: u16,
    pub page_flags: u16,
    pub tuning: WorkerScanTuning,
}

/// The only partition of a scan node.
pub open spec fn partition_text(partition: usize) -> Seq<char> {
    "WorkerPgScanExec exposes one partition, got partition "@ + decimal(partition as nat)
}

impl WorkerPgScanExecFactory {
    pub fn new(
        session_epoch: u64,
        scan_peers: BTreeMap<u64, Vec<ScanProducerPeer>>,
        page_kind: u16,
        page_flags: u16,
        tuning: WorkerScanTuning,
    ) -> (r: Self)
        ensures
            r == (WorkerPgScanExecFactory {
                session_epoch,
                scan_peers,
                page_kind,
                page_flags,
                tuning,
            }),
    {
        WorkerPgScanExecFactory { session_epoch, scan_peers, page_kind, page_flags, tuning }
    }

    /// The node of a scan, if peers were published for the scan.
    pub fn create(&self, scan_id: u64) -> (r: Result<WorkerPgScanExec, WorkerRuntimeError>)
        ensures
            !self.scan_peers@.contains_key(scan_id) ==> r == Err::<
                WorkerPgScanExec,
                WorkerRuntimeError,
            >(WorkerRuntimeError::MissingScanPeer { scan_id }),
            self.scan_peers@.contains_key(scan_id) ==> (r matches Ok(node) && node.producers@
                == self.scan_peers@[scan_id]@ && node.session_epoch == self.session_epoch
                && node.scan_id == scan_id && node.page_kind == self.page_kind && node.page_flags
                == self.page_flags && node.tuning == self.tuning),
    {
        match self.scan_peers.get(&scan_id) {
            Some(producers) => Ok(
                WorkerPgScanExec::new(
                    slice_to_vec(producers.as_slice()),
                    self.session_epoch,
                    scan_id,
                    self.page_kind,
                    self.page_flags,
                    self.tuning,
                ),
            ),
            None => Err(WorkerRuntimeError::MissingScanPeer { scan_id }),
        }
    }
}

impl WorkerPgScanExec {
    pub fn new(
        producers: Vec<ScanProducerPeer>,
        session_epoch: u64,
        scan_id: u64,
        page_kind: u16,
        page_flags: u16,
        tuning: WorkerScanTuning,
    ) -> (r: Self)
        ensures
            r == (WorkerPgScanExec {
                producers,
                session_epoch,
                scan_id,
                page_kind,
                page_flags,
                tuning,
            }),
    {
        WorkerPgScanExec { producers, session_epoch, scan_id, page_kind, page_flags, tuning }
    }

    pub fn scan_id(&self) -> (r: u64)
        ensures
            r == self.scan_id,
    {
        self.scan_id
    }

    pub fn producers(&self) -> (r: &[ScanProducerPeer])
        ensures
            r@ == self.producers@,
    {
        self.producers.as_slice()
    }

    pub fn session_epoch(&self) -> (r: u64)
        ensures
            r == self.session_epoch,
    {
        self.session_epoch
    }

    pub fn name(&self) -> (r: &'static str)
        ensures
            r@ == "WorkerPgScanExec"@,
    {
        "WorkerPgScanExec"
    }

    /// One line about the node.
    pub fn describe(&self) -> (r: String)
        ensures
            r@ == "WorkerPgScanExec: scan_id="@ + decimal(self.scan_id as nat),
    {
        let mut r: String = owned("WorkerPgScanExec: scan_id=");
        append_decimal(&mut r, self.scan_id);
        r
    }

    /// More about the node; `schema` is its output schema written out.
    pub fn describe_verbose(&self, table_oid: u32, schema: &str) -> (r: String)
        ensures
            r@ == "WorkerPgScanExec: session_epoch="@ + decimal(self.session_epoch as nat)
                + ", scan_id="@ + decimal(self.scan_id as nat) + ", table_oid="@ + decimal(
                table_oid as nat,
            ) + ", schema="@ + schema@,
    {
        let mut r: String = owned("WorkerPgScanExec: session_epoch=");
        append_decimal(&mut r, self.session_epoch);
        r.append(", scan_id=");
        append_decimal(&mut r, self.scan_id);
        r.append(", table_oid=");
        append_decimal(&mut r, table_oid as u64);
        r.append(", schema=");
        r.append(schema);
        r
    }

    /// A scan node takes no children.
    pub fn check_new_children(&self, children: usize) -> (r: Result<(), WorkerRuntimeError>)
        ensures
            children == 0 ==> r is Ok,
            children > 0 ==> (r matches Err(WorkerRuntimeError::Plan(text)) && text@
                == "WorkerPgScanExec has no children"@),
    {
        if children == 0 {
            Ok(())
        } else {
            Err(WorkerRuntimeError::Plan(owned("WorkerPgScanExec has no children")))
        }
    }

    /// What executing a partition asks of the scan source. There is one
    /// partition.
    pub fn execute(&self, partition: usize) -> (r: Result<OpenScanRequest, WorkerRuntimeError>)
        ensures
            partition != 0 ==> (r matches Err(WorkerRuntimeError::Plan(text)) && text@
                == partition_text(partition)),
            partition == 0 ==> (r matches Ok(request) && request.producers@ == self.producers@
                && request.session_epoch == self.session_epoch && request.scan_id == self.scan_id
                && request.page_kind == self.page_kind && request.page_flags == self.page_flags
                && request.tuning == self.tuning),
    {
        if partition != 0 {
            let mut text: String = owned("WorkerPgScanExec exposes one partition, got partition ");
            append_decimal(&mut text, partition as u64);
            return Err(WorkerRuntimeError::Plan(text));
        }
        Ok(
            OpenScanRequest {
                producers: slice_to_vec(self.producers.as_slice()),
                session_epoch: self.session_epoch,
                scan_id: self.scan_id,
                page_kind: self.page_kind,
                page_flags: self.page_flags,
                tuning: self.tuning,
            },
        )
    }
}

} // verus!
