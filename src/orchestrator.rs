use vstd::prelude::*;
use crate::error::CaptureError;
use crate::interface::{
    NetworkInterface,
    NetworkInterfaceView,
    OperStatus,
    detect_network_activity,
    has_activity,
};

verus! {

/// Whether the scan captures on this interface: it is up and the activity
/// policy reports traffic on it.
pub open spec fn is_target(i: NetworkInterfaceView) -> bool {
    i.operational_status == OperStatus::Up && has_activity(i.name)
}

/// Names of the interfaces a scan of `interfaces` captures on, in their order.
pub open spec fn scan_targets(interfaces: Seq<NetworkInterfaceView>) -> Seq<Seq<char>>
    decreases interfaces.len(),
{
    if interfaces.len() == 0 {
        Seq::empty()
    } else {
        let before = scan_targets(interfaces.drop_last());
        if is_target(interfaces.last()) {
            before.push(interfaces.last().name)
        } else {
            before
        }
    }
}

pub open spec fn interfaces_view(interfaces: Seq<NetworkInterface>) -> Seq<NetworkInterfaceView> {
    interfaces.map_values(|i: NetworkInterface| i@)
}

pub open spec fn names_view(names: Seq<String>) -> Seq<Seq<char>> {
    names.map_values(|s: String| s@)
}

/// An interface whose capture failed, and why.
pub struct FailureView {
    pub interface: Seq<char>,
    pub error: CaptureError,
}

#[derive(Clone, Debug)]
pub struct InterfaceFailure {
    pub interface: String,
    pub error: CaptureError,
}

impl View for InterfaceFailure {
    type V = FailureView;

    open spec fn view(&self) -> FailureView {
        FailureView { interface: self.interface@, error: self.error }
    }
}

pub open spec fn failures_view(failures: Seq<InterfaceFailure>) -> Seq<FailureView> {
    failures.map_values(|f: InterfaceFailure| f@)
}

/// A scan in mathematical terms: the interfaces to capture on, how many of them
/// are done, and the failures met so far.
pub struct ScanView {
    pub targets: Seq<Seq<char>>,
    pub done: nat,
    pub failures: Seq<FailureView>,
}

/// What the caller must do next for the scan.
#[derive(Clone, Debug)]
pub enum ScanAction {
    /// Open a session on this interface, run its capture loop, close the
    /// session whatever the loop returned, and report the loop's result.
    Capture { interface: String },
    /// Every interface has been handled.
    Done,
}

/// Best-effort scan over the interfaces of one enumeration: each interface that
/// is up and active gets a capture in turn, and a failure on one is logged
/// without stopping the others.
pub struct Orchestrator {
    targets: Vec<String>,
    done: usize,
    failures: Vec<InterfaceFailure>,
}

impl View for Orchestrator {
    type V = ScanView;

    closed spec fn view(&self) -> ScanView {
        ScanView {
            targets: names_view(self.targets@),
            done: self.done as nat,
            failures: failures_view(self.failures@),
        }
    }
}

impl Orchestrator {
    pub closed spec fn wf(&self) -> bool {
        self.done <= self.targets.len()
    }

    /// Plans a scan of `interfaces`, as listed by one enumeration.
    pub fn new(interfaces: &Vec<NetworkInterface>) -> (r: Orchestrator)
        ensures
            r.wf(),
            r@.targets == scan_targets(interfaces_view(interfaces@)),
            r@.done == 0,
            r@.failures == Seq::<FailureView>::empty(),
    {
        let ghost all = interfaces_view(interfaces@);
        let mut targets: Vec<String> = Vec::new();
        let mut i: usize = 0;
        while i < interfaces.len()
            invariant
                i <= interfaces.len(),
                all == interfaces_view(interfaces@),
                names_view(targets@) == scan_targets(all.take(i as int)),
            decreases interfaces.len() - i,
        {
            let iface = &interfaces[i];
            let ghost before = targets@;
            assert(all.take(i + 1).drop_last() =~= all.take(i as int));
            assert(all.take(i + 1).last() == iface@);
            let up = match iface.operational_status {
                OperStatus::Up => true,
                _ => false,
            };
            if up && detect_network_activity(iface.name.as_str()) {
                targets.push(iface.name.clone());
                assert(names_view(targets@) =~= names_view(before).push(iface.name@));
            }
            i = i + 1;
        }
        assert(all.take(interfaces.len() as int) =~= all);
        let r = Orchestrator { targets, done: 0, failures: Vec::new() };
        assert(failures_view(r.failures@) =~= Seq::<FailureView>::empty());
        r
    }

    /// The next thing to do: capture on the next interface, or stop.
    pub fn next_action(&self) -> (r: ScanAction)
        requires
            self.wf(),
        ensures
            self@.done < self@.targets.len() ==> (r matches ScanAction::Capture { interface }
                && interface@ == self@.targets[self@.done as int]),
            self@.done >= self@.targets.len() ==> r is Done,
    {
        if self.done < self.targets.len() {
            ScanAction::Capture { interface: self.targets[self.done].clone() }
        } else {
            ScanAction::Done
        }
    }

    /// Records how the capture on the current interface ended and moves on; a
    /// failure is logged under the interface's name.
    pub fn record(&mut self, result: Result<(), CaptureError>)
        requires
            old(self).wf(),
            old(self)@.done < old(self)@.targets.len(),
        ensures
            final(self).wf(),
            final(self)@.targets == old(self)@.targets,
            final(self)@.done == old(self)@.done + 1,
            match result {
                Ok(()) => final(self)@.failures == old(self)@.failures,
                Err(error) => final(self)@.failures == old(self)@.failures.push(
                    FailureView { interface: old(self)@.targets[old(self)@.done as int], error },
                ),
            },
    {
        let ghost before = self.failures@;
        match result {
            Ok(()) => {},
            Err(error) => {
                let interface = self.targets[self.done].clone();
                self.failures.push(InterfaceFailure { interface, error });
                assert(failures_view(self.failures@) =~= failures_view(before).push(
                    FailureView { interface: self.targets@[self.done as int]@, error },
                ));
            },
        }
        self.done = self.done + 1;
    }

    /// Whether every planned interface has been handled.
    pub fn is_done(&self) -> (r: bool)
        ensures
            r == (self@.done >= self@.targets.len()),
    {
        self.done >= self.targets.len()
    }

    /// The interfaces the scan captures on, in order.
    pub fn targets(&self) -> (r: &Vec<String>)
        ensures
            names_view(r@) == self@.targets,
    {
        &self.targets
    }

    /// The failures logged so far, in the order they happened.
    pub fn failures(&self) -> (r: &Vec<InterfaceFailure>)
        ensures
            failures_view(r@) == self@.failures,
    {
        &self.failures
    }
}

/// A scan captures only on interfaces that are up: each interface it plans a
/// capture on is named by an interface of the enumeration whose status is up.
/// So a name that no up interface carries (an interface that is down, say) is
/// never captured on.
pub proof fn lemma_scan_skips_interfaces_not_up(interfaces: Seq<NetworkInterfaceView>)
    ensures
        forall|k: int|
            0 <= k < scan_targets(interfaces).len() ==> exists|j: int|
                0 <= j < interfaces.len() && interfaces[j].operational_status == OperStatus::Up
                    && interfaces[j].name == #[trigger] scan_targets(interfaces)[k],
        forall|name: Seq<char>|
            (forall|j: int|
                0 <= j < interfaces.len() && #[trigger] interfaces[j].name == name
                    ==> interfaces[j].operational_status != OperStatus::Up) ==> !scan_targets(
                interfaces,
            ).contains(name),
    decreases interfaces.len(),
{
    let targets = scan_targets(interfaces);
    if interfaces.len() > 0 {
        let rest = interfaces.drop_last();
        lemma_scan_skips_interfaces_not_up(rest);
        assert forall|k: int| 0 <= k < targets.len() implies exists|j: int|
            0 <= j < interfaces.len() && interfaces[j].operational_status == OperStatus::Up
                && interfaces[j].name == #[trigger] targets[k] by {
            if k < scan_targets(rest).len() {
                assert(targets[k] == scan_targets(rest)[k]);
                let j = choose|j: int|
                    0 <= j < rest.len() && rest[j].operational_status == OperStatus::Up
                        && rest[j].name == #[trigger] scan_targets(rest)[k];
                assert(interfaces[j] == rest[j]);
            } else {
                assert(interfaces[interfaces.len() - 1] == interfaces.last());
            }
        }
    }
    assert forall|name: Seq<char>|
        (forall|j: int|
            0 <= j < interfaces.len() && #[trigger] interfaces[j].name == name
                ==> interfaces[j].operational_status != OperStatus::Up) implies !targets.contains(
        name,
    ) by {
        if targets.contains(name) {
            let k = choose|k: int| 0 <= k < targets.len() && targets[k] == name;
            assert(exists|j: int|
                0 <= j < interfaces.len() && interfaces[j].operational_status == OperStatus::Up
                    && interfaces[j].name == #[trigger] targets[k]);
        }
    }
}

} // verus!
