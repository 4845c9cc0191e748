//! Output classification and the controller registry.
//!
//! Discovery hands over the connected outputs, the vendor-reported display
//! identifiers, and — per output — whether the CTM property is exposed.
//! Each output is classified into the backend that will control it: the
//! vendor-attribute path when the vendor reports the output, else the CTM
//! path when the property is available, else the output is uncontrollable
//! and dropped. One controller comes out per classified output.

use vstd::prelude::*;

verus! {

/// One display output, as discovery hands it over: the server-scoped
/// output identifier and the human-readable name.
pub struct OutputHandle {
    pub id: u64,
    pub name: String,
}

/// An output as enumerated, before disconnected ones are dropped.
pub struct OutputCandidate {
    pub id: u64,
    pub name: String,
    pub connected: bool,
}

/// A vendor-reported display: the vendor's internal display identifier
/// paired with the server's output identifier. Used only during
/// classification.
#[derive(Clone, Copy, PartialEq, Eq, Structural)]
pub struct VendorDisplayId {
    pub vendor_id: i32,
    pub output_id: u64,
}

/// The control path a controller uses.
#[derive(Clone, Copy, PartialEq, Eq, Structural, Debug)]
pub enum ControllerBackend {
    XNVCtrl,
    CTM,
}

impl ControllerBackend {
    /// The backend's display label.
    pub fn label(&self) -> (r: &'static str)
        ensures
            *self is XNVCtrl ==> r@ == "XNVCtrl"@,
            *self is CTM ==> r@ == "CTM"@,
    {
        match self {
            ControllerBackend::XNVCtrl => "XNVCtrl",
            ControllerBackend::CTM => "CTM",
        }
    }
}

/// A controller over the vendor-attribute path: the output plus the
/// vendor's internal identifier the attribute calls address.
pub struct NvidiaController {
    pub output: OutputHandle,
    pub nvidia_id: i32,
}

impl NvidiaController {
    pub fn new(output: OutputHandle, nvidia_id: i32) -> (r: NvidiaController)
        ensures
            r.output == output,
            r.nvidia_id == nvidia_id,
    {
        NvidiaController { output, nvidia_id }
    }

    pub fn get_name(&self) -> (r: &str)
        ensures
            r@ == self.output.name@,
    {
        self.output.name.as_str()
    }

    pub fn get_backend(&self) -> (r: ControllerBackend)
        ensures
            r == ControllerBackend::XNVCtrl,
    {
        ControllerBackend::XNVCtrl
    }
}

/// A controller over the CTM path: the output plus the resolved CTM
/// property identifier.
pub struct CTMController {
    pub output: OutputHandle,
    pub ctm_prop: u64,
}

impl CTMController {
    pub fn new(output: OutputHandle, ctm_prop: u64) -> (r: CTMController)
        ensures
            r.output == output,
            r.ctm_prop == ctm_prop,
    {
        CTMController { output, ctm_prop }
    }

    pub fn get_name(&self) -> (r: &str)
        ensures
            r@ == self.output.name@,
    {
        self.output.name.as_str()
    }

    pub fn get_backend(&self) -> (r: ControllerBackend)
        ensures
            r == ControllerBackend::CTM,
    {
        ControllerBackend::CTM
    }
}

/// One controllable output. The variant fixes, once and for all at
/// classification time, which backend the output is driven through.
pub enum Controller {
    Nvidia(NvidiaController),
    Ctm(CTMController),
}

/// The backend a controller dispatches to.
pub open spec fn backend_of(c: Controller) -> ControllerBackend {
    match c {
        Controller::Nvidia(_) => ControllerBackend::XNVCtrl,
        Controller::Ctm(_) => ControllerBackend::CTM,
    }
}

/// The output a controller wraps.
pub open spec fn output_of(c: Controller) -> OutputHandle {
    match c {
        Controller::Nvidia(n) => n.output,
        Controller::Ctm(t) => t.output,
    }
}

impl Controller {
    pub fn get_name(&self) -> (r: &str)
        ensures
            r@ == output_of(*self).name@,
    {
        match self {
            Controller::Nvidia(c) => c.get_name(),
            Controller::Ctm(c) => c.get_name(),
        }
    }

    pub fn get_backend(&self) -> (r: ControllerBackend)
        ensures
            r == backend_of(*self),
    {
        match self {
            Controller::Nvidia(c) => c.get_backend(),
            Controller::Ctm(c) => c.get_backend(),
        }
    }
}

/// The connected outputs among the enumerated candidates, in order.
pub open spec fn connected_s(cands: Seq<OutputCandidate>) -> Seq<OutputHandle>
    decreases cands.len(),
{
    if cands.len() == 0 {
        Seq::empty()
    } else {
        let rest = connected_s(cands.drop_last());
        if cands.last().connected {
            rest.push(OutputHandle { id: cands.last().id, name: cands.last().name })
        } else {
            rest
        }
    }
}

/// Keeps the connected outputs, in enumeration order; disconnected ones
/// never reach classification.
pub fn connected_outputs(cands: Vec<OutputCandidate>) -> (r: Vec<OutputHandle>)
    ensures
        r@ == connected_s(cands@),
{
    let ghost cands0 = cands@;
    let mut cands = cands;
    let mut r: Vec<OutputHandle> = Vec::new();
    let mut i: usize = 0;
    proof {
        assert(cands.len() == cands0.len());
    }
    while cands.len() > 0
        invariant
            cands0.len() <= usize::MAX,
            i + cands@.len() == cands0.len(),
            cands@ =~= cands0.skip(i as int),
            r@ == connected_s(cands0.take(i as int)),
        decreases cands@.len(),
    {
        let c = cands.remove(0);
        proof {
            assert(cands0.skip(i as int)[0] == cands0[i as int]);
            assert(cands0.skip(i as int).remove(0) =~= cands0.skip(i as int + 1));
            assert(cands0.take(i as int + 1).drop_last() =~= cands0.take(i as int));
            assert(cands0.take(i as int + 1).last() == cands0[i as int]);
        }
        if c.connected {
            r.push(OutputHandle { id: c.id, name: c.name });
        }
        i = i + 1;
    }
    proof {
        assert(cands0.take(i as int) =~= cands0);
    }
    r
}

/// The vendor's internal identifier for an output, if the vendor reports
/// it: the first pair whose output identifier matches.
pub open spec fn vendor_match(ids: Seq<VendorDisplayId>, output_id: u64) -> Option<i32>
    decreases ids.len(),
{
    if ids.len() == 0 {
        None
    } else if ids[0].output_id == output_id {
        Some(ids[0].vendor_id)
    } else {
        vendor_match(ids.skip(1), output_id)
    }
}

/// Looks an output up in the vendor-reported display list.
pub fn vendor_id_for(ids: &Vec<VendorDisplayId>, output_id: u64) -> (r: Option<i32>)
    ensures
        r == vendor_match(ids@, output_id),
{
    let mut i: usize = 0;
    proof {
        assert(ids@.skip(0) =~= ids@);
    }
    while i < ids.len()
        invariant
            i <= ids@.len(),
            vendor_match(ids@, output_id) == vendor_match(ids@.skip(i as int), output_id),
        decreases ids@.len() - i,
    {
        if ids[i].output_id == output_id {
            proof {
                assert(ids@.skip(i as int)[0] == ids@[i as int]);
            }
            return Some(ids[i].vendor_id);
        }
        proof {
            assert(ids@.skip(i as int).skip(1) =~= ids@.skip(i as int + 1));
        }
        i = i + 1;
    }
    proof {
        assert(ids@.skip(i as int).len() == 0);
    }
    None
}

/// How one output is classified: the vendor path wins when the vendor
/// reports the output; otherwise the CTM path applies when the CTM
/// property both exists on the server (`ctm_prop != 0`) and is exposed by
/// the output; otherwise the output is uncontrollable.
pub open spec fn classify_s(
    output: OutputHandle,
    ids: Seq<VendorDisplayId>,
    ctm_prop: u64,
    has_ctm: bool,
) -> Option<Controller> {
    match vendor_match(ids, output.id) {
        Some(nid) => Some(Controller::Nvidia(NvidiaController { output, nvidia_id: nid })),
        None => if ctm_prop != 0 && has_ctm {
            Some(Controller::Ctm(CTMController { output, ctm_prop }))
        } else {
            None
        },
    }
}

/// Classifies one output, yielding its controller or nothing.
pub fn classify(
    output: OutputHandle,
    ids: &Vec<VendorDisplayId>,
    ctm_prop: u64,
    has_ctm: bool,
) -> (r: Option<Controller>)
    ensures
        r == classify_s(output, ids@, ctm_prop, has_ctm),
{
    match vendor_id_for(ids, output.id) {
        Some(nid) => Some(Controller::Nvidia(NvidiaController::new(output, nid))),
        None => if ctm_prop != 0 && has_ctm {
            Some(Controller::Ctm(CTMController::new(output, ctm_prop)))
        } else {
            None
        },
    }
}

/// The controllers for a run of outputs, in order: exactly the outputs
/// that classify, each under its classification.
pub open spec fn controllers_s(
    outputs: Seq<OutputHandle>,
    ids: Seq<VendorDisplayId>,
    ctm_prop: u64,
    has_ctm: Seq<bool>,
) -> Seq<Controller>
    decreases outputs.len(),
{
    if outputs.len() == 0 {
        Seq::empty()
    } else {
        let rest = controllers_s(outputs.drop_last(), ids, ctm_prop, has_ctm.drop_last());
        match classify_s(outputs.last(), ids, ctm_prop, has_ctm.last()) {
            Some(c) => rest.push(c),
            None => rest,
        }
    }
}

/// Builds the controller registry: one controller per classified output,
/// in enumeration order. `has_ctm[i]` says whether output `i` exposes the
/// CTM property; `ctm_prop == 0` means the server has no CTM property at
/// all and the CTM path is skipped for every output.
pub fn get_controllers(
    outputs: Vec<OutputHandle>,
    nvidia_ids: &Vec<VendorDisplayId>,
    ctm_prop: u64,
    has_ctm: &Vec<bool>,
) -> (r: Vec<Controller>)
    requires
        has_ctm@.len() == outputs@.len(),
    ensures
        r@ == controllers_s(outputs@, nvidia_ids@, ctm_prop, has_ctm@),
{
    let ghost outputs0 = outputs@;
    let mut outputs = outputs;
    let mut r: Vec<Controller> = Vec::new();
    let mut i: usize = 0;
    proof {
        assert(outputs.len() == outputs0.len());
    }
    while outputs.len() > 0
        invariant
            outputs0.len() <= usize::MAX,
            has_ctm@.len() == outputs0.len(),
            i + outputs@.len() == outputs0.len(),
            outputs@ =~= outputs0.skip(i as int),
            r@ == controllers_s(
                outputs0.take(i as int),
                nvidia_ids@,
                ctm_prop,
                has_ctm@.take(i as int),
            ),
        decreases outputs@.len(),
    {
        let o = outputs.remove(0);
        proof {
            assert(outputs0.skip(i as int)[0] == outputs0[i as int]);
            assert(outputs0.skip(i as int).remove(0) =~= outputs0.skip(i as int + 1));
            assert(outputs0.take(i as int + 1).drop_last() =~= outputs0.take(i as int));
            assert(has_ctm@.take(i as int + 1).drop_last() =~= has_ctm@.take(i as int));
            assert(outputs0.take(i as int + 1).last() == outputs0[i as int]);
            assert(has_ctm@.take(i as int + 1).last() == has_ctm@[i as int]);
        }
        match classify(o, nvidia_ids, ctm_prop, has_ctm[i]) {
            Some(c) => r.push(c),
            None => (),
        }
        i = i + 1;
    }
    proof {
        assert(outputs0.take(i as int) =~= outputs0);
        assert(has_ctm@.take(i as int) =~= has_ctm@);
    }
    r
}

/// Law: the vendor path has priority. An output the vendor reports is
/// classified to the vendor-attribute backend even when the CTM property
/// would apply too.
pub proof fn lemma_vendor_priority(
    output: OutputHandle,
    ids: Seq<VendorDisplayId>,
    ctm_prop: u64,
    has_ctm: bool,
)
    requires
        vendor_match(ids, output.id) is Some,
    ensures
        classify_s(output, ids, ctm_prop, has_ctm) matches Some(c) && backend_of(c)
            == ControllerBackend::XNVCtrl,
{
}

/// Law: an output the vendor does not report and that offers no CTM
/// property gets no controller.
pub proof fn lemma_unclassifiable(
    output: OutputHandle,
    ids: Seq<VendorDisplayId>,
    ctm_prop: u64,
    has_ctm: bool,
)
    requires
        vendor_match(ids, output.id) is None,
        ctm_prop == 0 || !has_ctm,
    ensures
        classify_s(output, ids, ctm_prop, has_ctm) is None,
{
}

} // verus!
