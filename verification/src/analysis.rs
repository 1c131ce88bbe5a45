//! One analysis of a file as a sequence of steps.
//!
//! The engine walks the data depth first: it looks for candidates in a region,
//! asks a detector about each, turns confirmed candidates into nodes and
//! analyzes every file a detector extracted as a region of its own, one level
//! deeper. Some detectors need an external tool to run on the data first;
//! at that point a step hands the caller a [`ToolRequest`] and the next step
//! takes the tool's outcome.
use vstd::prelude::*;
use crate::adapters::{Adapter, ExternalAnalysis};
use crate::drill_engine::{
    candidate_node, candidate_pairs, candidates_are, check_outcome, external_tool_result, extracted_node,
    first_invalid_magic, hash_text, invalid_magic, is_candidate_node, is_extracted_node, is_root_node,
    lemma_candidates_sorted, lemma_candidates_within, root_node, sha256_hex, tool_outcome, yields_node, AnalysisLimits, Candidate,
    CandidateCheck, DetectionResult, DrillEngine, DrillError, ExtractedChild, Manifest, Node,
};
use crate::text::owned;

verus! {

// ---------------------------------------------------------------------------
// The shape of a finished analysis tree.

/// Whether the children of `n` come in order of their start offsets.
pub open spec fn children_in_offset_order(n: Node) -> bool {
    forall|i: int, j: int|
        0 <= i < j < n.children@.len() ==> (#[trigger] n.children@[i]).start_offset
            <= (#[trigger] n.children@[j]).start_offset
}

/// A node analyzed as a region of `depth` levels below the root: nothing was
/// searched at or below the depth limit, it has at most the allowed number of
/// children, in order of their offsets, and every child is a well-formed
/// detected region of it.
pub open spec fn analyzed_wf(n: Node, depth: int, limits: AnalysisLimits) -> bool
    decreases n, 0int,
{
    &&& (depth >= limits.max_depth ==> n.children@.len() == 0)
    &&& n.children@.len() <= limits.max_children_per_node
    &&& children_in_offset_order(n)
    &&& forall|i: int|
        0 <= i < n.children@.len() ==> candidate_wf(#[trigger] n.children@[i], n.size as int, depth, limits)
}

/// A node for a detected region of a parent of `parent_size` bytes: it is not
/// empty, lies within the parent, and each file extracted from it is a
/// well-formed region one level deeper.
pub open spec fn candidate_wf(c: Node, parent_size: int, depth: int, limits: AnalysisLimits) -> bool
    decreases c, 0int,
{
    &&& c.size > 0
    &&& c.start_offset + c.size <= parent_size
    &&& forall|j: int| 0 <= j < c.children@.len() ==> extracted_wf(#[trigger] c.children@[j], depth + 1, limits)
}

/// A node for an extracted file: it starts at offset zero, is no larger than
/// the extraction limit, and is analyzed as a region of its own.
pub open spec fn extracted_wf(e: Node, depth: int, limits: AnalysisLimits) -> bool
    decreases e, 1int,
{
    &&& e.start_offset == 0
    &&& e.size <= limits.max_extracted_size
    &&& analyzed_wf(e, depth, limits)
}

// ---------------------------------------------------------------------------
// The state of an analysis.

/// A detected region whose extracted files are still being analyzed.
struct PendingChild {
    node: Node,
    extracted: Vec<ExtractedChild>,
}

/// A region under analysis.
struct Frame {
    node: Node,
    bytes: Vec<u8>,
    depth: usize,
    candidates: Option<Vec<Candidate>>,
    next: usize,
    pending: Option<PendingChild>,
}

/// An external tool run that the analysis waits for.
#[derive(Debug)]
pub struct ToolRequest {
    /// The adapter of the tool.
    pub adapter: Adapter,
    /// The data that the tool reads: the whole region the candidate was found in.
    pub input: Vec<u8>,
    /// The offset of the candidate within `input`.
    pub offset: usize,
}

/// An analysis in progress.
pub struct AnalysisRun<'a> {
    engine: &'a DrillEngine,
    frames: Vec<Frame>,
    id_counter: usize,
    waiting: Option<Adapter>,
    original_file: String,
    total_size: usize,
    sha256: String,
}

/// What one step of an analysis leads to.
pub enum AnalysisStep<'a> {
    /// The analysis goes on.
    Continue(AnalysisRun<'a>),
    /// The analysis goes on once the requested tool has run; its outcome is
    /// the event of the next step.
    RunTool(AnalysisRun<'a>, ToolRequest),
    /// The analysis is over.
    Finished(Result<Manifest, DrillError>),
}

/// A detected region whose extracted files are still to be analyzed, as the
/// contracts see it.
pub struct PendingView {
    pub node: Node,
    pub extracted: Seq<ExtractedChild>,
}

/// A region under analysis, as the contracts see it: its node with the
/// children found so far, its data, how deep it lies, its candidates once
/// they were searched, the next candidate to examine, and the detected region
/// whose extracted files are being analyzed.
pub struct RegionView {
    pub node: Node,
    pub bytes: Seq<u8>,
    pub depth: nat,
    pub candidates: Option<Seq<Candidate>>,
    pub next: nat,
    pub pending: Option<PendingView>,
}

spec fn frame_view(f: Frame) -> RegionView {
    RegionView {
        node: f.node,
        bytes: f.bytes@,
        depth: f.depth as nat,
        candidates: match f.candidates {
            Some(cs) => Some(cs@),
            None => None,
        },
        next: f.next as nat,
        pending: match f.pending {
            Some(p) => Some(PendingView { node: p.node, extracted: p.extracted@ }),
            None => None,
        },
    }
}

spec fn frame_wf(f: Frame, limits: AnalysisLimits) -> bool {
    &&& f.node.size == f.bytes@.len()
    &&& f.node.children@.len() <= limits.max_children_per_node
    &&& f.depth <= limits.max_depth
    &&& (f.depth >= limits.max_depth ==> f.node.children@.len() == 0)
    &&& forall|i: int|
        0 <= i < f.node.children@.len() ==> candidate_wf(
            #[trigger] f.node.children@[i],
            f.node.size as int,
            f.depth as int,
            limits,
        )
    &&& children_in_offset_order(f.node)
    &&& match f.candidates {
        None => f.next == 0 && f.pending is None && f.node.children@.len() == 0,
        Some(cs) => {
            &&& f.next <= cs@.len()
            &&& (f.depth >= limits.max_depth ==> cs@.len() == 0)
            &&& forall|c: int| 0 <= c < cs@.len() ==> (#[trigger] cs@[c]).offset <= f.bytes@.len()
            &&& forall|a: int, b: int| 0 <= a < b < cs@.len() ==> (#[trigger] cs@[a]).offset <= (#[trigger] cs@[b]).offset
            &&& f.next < cs@.len() ==> forall|k: int|
                0 <= k < f.node.children@.len() ==> (#[trigger] f.node.children@[k]).start_offset <= cs@[f.next as int].offset
        },
    }
    &&& f.pending matches Some(p) ==> {
        &&& f.candidates matches Some(cs) && f.next < cs@.len() && p.node.start_offset == cs@[f.next as int].offset
        &&& f.node.children@.len() < limits.max_children_per_node
        &&& f.depth < limits.max_depth
        &&& candidate_wf(p.node, f.node.size as int, f.depth as int, limits)
    }
}

spec fn frames_linked(parent: Frame, child: Frame, limits: AnalysisLimits) -> bool {
    &&& parent.pending is Some
    &&& child.depth == parent.depth + 1
    &&& child.node.start_offset == 0
    &&& child.node.size <= limits.max_extracted_size
}

spec fn top(frames: Seq<Frame>) -> Frame {
    frames[frames.len() - 1]
}

spec fn stack_wf(frames: Seq<Frame>, limits: AnalysisLimits) -> bool {
    &&& frames.len() >= 1
    &&& frames[0].depth == 0
    &&& forall|k: int| 0 <= k < frames.len() ==> frame_wf(#[trigger] frames[k], limits)
    &&& forall|k: int| 0 <= k < frames.len() - 1 ==> frames_linked(#[trigger] frames[k], frames[k + 1], limits)
}

impl<'a> AnalysisRun<'a> {
    /// The engine the analysis runs on.
    pub closed spec fn engine(&self) -> &'a DrillEngine {
        self.engine
    }

    /// The limits of the analysis.
    pub closed spec fn limits(&self) -> AnalysisLimits {
        self.engine.spec_limits()
    }

    /// The name under which the analyzed file is recorded.
    pub closed spec fn original_file(&self) -> Seq<char> {
        self.original_file@
    }

    /// The number of bytes of the analyzed file.
    pub closed spec fn total_size(&self) -> nat {
        self.total_size as nat
    }

    /// The hash text of the analyzed file.
    pub closed spec fn file_hash(&self) -> Seq<char> {
        self.sha256@
    }

    /// The regions under analysis, outermost first: the whole file, then each
    /// extracted file being analyzed inside the one before it.
    pub closed spec fn regions(&self) -> Seq<RegionView> {
        views(self.frames@)
    }

    /// The number the next node gets.
    pub closed spec fn next_id(&self) -> nat {
        self.id_counter as nat
    }

    /// The adapter whose tool the analysis waits for, if it waits for one.
    pub closed spec fn waiting_for(&self) -> Option<Adapter> {
        self.waiting
    }

    /// The invariant of an analysis in progress.
    pub closed spec fn wf(&self) -> bool {
        let limits = self.engine.spec_limits();
        &&& stack_wf(self.frames@, limits)
        &&& self.frames@[0].node.size == self.total_size
        &&& self.frames@[0].node.raw_hash@ == self.sha256@
        &&& self.frames@[0].node.id@ == "n0000"@
        &&& self.frames@[0].node.node_type@ == "root"@
        &&& self.frames@[0].node.start_offset == 0
        &&& self.sha256@ == hash_text(self.frames@[0].bytes@)
        &&& self.waiting is Some ==> {
            let f = top(self.frames@);
            &&& f.candidates matches Some(cs) && f.next < cs@.len()
            &&& f.pending is None
            &&& f.node.children@.len() < limits.max_children_per_node
            &&& check_outcome(f.bytes@, f.candidates->Some_0@[f.next as int], Ok(CandidateCheck::RunAdapter(self.waiting->Some_0)))
        }
    }

    /// Starts the analysis of the bytes of a file. The root node covers the
    /// whole file and is named after it.
    pub fn start(engine: &'a DrillEngine, bytes: Vec<u8>, file_name: Option<String>, original_file: String) -> (r: Self)
        ensures
            r.wf(),
            r.engine() == engine,
            r.original_file() == original_file@,
            r.total_size() == bytes@.len(),
            r.file_hash() == hash_text(bytes@),
            r.waiting_for() is None,
            r.next_id() == 1,
            r.regions().len() == 1,
            is_root_node(r.regions()[0].node, bytes@, file_name),
            r.regions()[0] == (RegionView {
                node: r.regions()[0].node,
                bytes: bytes@,
                depth: 0,
                candidates: None,
                next: 0,
                pending: None,
            }),
    {
        let root = root_node(bytes.as_slice(), file_name);
        let hash = sha256_hex(bytes.as_slice());
        let total_size = bytes.len();
        let frame = Frame { node: root, bytes, depth: 0, candidates: None, next: 0, pending: None };
        let mut frames: Vec<Frame> = Vec::new();
        frames.push(frame);
        let run = AnalysisRun {
            engine,
            frames,
            id_counter: 1,
            waiting: None,
            original_file,
            total_size,
            sha256: hash,
        };
        assert(run.frames@[0].node.children@.len() == 0);
        assert(run.regions()[0] == frame_view(run.frames@[0]));
        run
    }
}


/// The header of a frame: everything that its links and the root facts speak of.
spec fn same_header(a: Frame, b: Frame) -> bool {
    &&& a.depth == b.depth
    &&& a.bytes@ == b.bytes@
    &&& a.node.start_offset == b.node.start_offset
    &&& a.node.size == b.node.size
    &&& a.node.id == b.node.id
    &&& a.node.node_type == b.node.node_type
    &&& a.node.raw_hash == b.node.raw_hash
}

proof fn lemma_replace_top(frames: Seq<Frame>, f: Frame, limits: AnalysisLimits)
    requires
        stack_wf(frames, limits),
        frame_wf(f, limits),
        same_header(top(frames), f),
    ensures
        stack_wf(frames.drop_last().push(f), limits),
        frames.drop_last().push(f)[0].node.size == frames[0].node.size,
        frames.drop_last().push(f)[0].node.raw_hash == frames[0].node.raw_hash,
        frames.drop_last().push(f)[0].node.id == frames[0].node.id,
        frames.drop_last().push(f)[0].node.node_type == frames[0].node.node_type,
        frames.drop_last().push(f)[0].bytes@ == frames[0].bytes@,
        frames.drop_last().push(f)[0].node.start_offset == frames[0].node.start_offset,
{
    let n = frames.drop_last().push(f);
    assert forall|k: int| 0 <= k < n.len() implies frame_wf(#[trigger] n[k], limits) by {
        if k < frames.len() - 1 {
            assert(n[k] == frames[k]);
        }
    }
    assert forall|k: int| 0 <= k < n.len() - 1 implies frames_linked(#[trigger] n[k], n[k + 1], limits) by {
        assert(n[k] == frames[k]);
        assert(frames_linked(frames[k], frames[k + 1], limits));
    }
}

proof fn lemma_push_frame(frames: Seq<Frame>, g: Frame, limits: AnalysisLimits)
    requires
        stack_wf(frames, limits),
        frame_wf(g, limits),
        frames_linked(top(frames), g, limits),
    ensures
        stack_wf(frames.push(g), limits),
        frames.push(g)[0] == frames[0],
{
    let n = frames.push(g);
    assert forall|k: int| 0 <= k < n.len() implies frame_wf(#[trigger] n[k], limits) by {
        if k < frames.len() {
            assert(n[k] == frames[k]);
        }
    }
    assert forall|k: int| 0 <= k < n.len() - 1 implies frames_linked(#[trigger] n[k], n[k + 1], limits) by {
        assert(n[k] == frames[k]);
        if k < frames.len() - 1 {
            assert(frames_linked(frames[k], frames[k + 1], limits));
        }
    }
}

/// The facts that a finished analysis states of its manifest.
pub open spec fn finished_manifest(run: AnalysisRun, m: Manifest) -> bool {
    &&& m.manifest_format@ == "drill_manifest_v1"@
    &&& m.original_file@ == run.original_file()
    &&& m.total_size == run.total_size()
    &&& m.sha256@ == run.file_hash()
    &&& m.root.size == run.total_size()
    &&& m.root.raw_hash@ == run.file_hash()
    &&& m.root.id@ == "n0000"@
    &&& m.root.node_type@ == "root"@
    &&& m.root.start_offset == 0
    &&& analyzed_wf(m.root, 0, run.limits())
}

/// Whether `b` continues the analysis `a`: the same engine and file.
pub open spec fn same_analysis(a: AnalysisRun, b: AnalysisRun) -> bool {
    &&& b.wf()
    &&& b.engine() == a.engine()
    &&& b.original_file() == a.original_file()
    &&& b.total_size() == a.total_size()
    &&& b.file_hash() == a.file_hash()
}

/// The number after `id`, counting as a `usize` does when it wraps.
pub open spec fn next_number(id: nat) -> nat {
    if id < usize::MAX { id + 1 } else { 0 }
}

/// `rs` with its last region replaced by `r`.
pub open spec fn with_last(rs: Seq<RegionView>, r: RegionView) -> Seq<RegionView> {
    rs.drop_last().push(r)
}

/// Whether `n2` is the node `n` with `child` added as its last child.
pub open spec fn appended(n: Node, child: Node, n2: Node) -> bool {
    &&& n2 == (Node { children: n2.children, ..n })
    &&& n2.children@ == n.children@.push(child)
}

/// Whether `(r2, id2)` is the region `r` with the detector's conclusion `d` on
/// its next candidate recorded, where `id` is the number of the next node: a
/// node for the candidate, numbered `id`, waits for the files the detector
/// extracted; or, when the conclusion yields no node, the next candidate is
/// up.
pub open spec fn records(r: RegionView, d: DetectionResult, id: nat, r2: RegionView, id2: nat) -> bool {
    let c = r.candidates->Some_0[r.next as int];
    if yields_node(r.bytes.len() as int, c, d) {
        &&& r2 == (RegionView { pending: r2.pending, ..r })
        &&& r2.pending matches Some(p) && is_candidate_node(p.node, r.bytes, c, d, id)
            && p.extracted == d.extracted_children@
        &&& id2 == next_number(id)
    } else {
        &&& r2 == (RegionView { next: r.next + 1, ..r })
        &&& id2 == id
    }
}

/// Whether `n` is `run` with the region under examination replaced: `rs2`
/// are the regions of `n`, `id2` its next node number.
pub open spec fn continues_with(run: AnalysisRun, n: AnalysisRun, rs2: Seq<RegionView>, id2: nat) -> bool {
    &&& same_analysis(run, n)
    &&& n.waiting_for() is None
    &&& n.regions() == rs2
    &&& n.next_id() == id2
}

/// Whether `r` asks for the tool of adapter `a` to run on the data of the
/// region under examination of `run`, and the analysis `n` that it goes on
/// with waits for that tool with the regions of `run` unchanged.
pub open spec fn asks_for_tool(run: AnalysisRun, a: Adapter, r: AnalysisStep) -> bool {
    let top = run.regions().last();
    r matches AnalysisStep::RunTool(n, req) && {
        &&& same_analysis(run, n)
        &&& n.regions() == run.regions()
        &&& n.next_id() == run.next_id()
        &&& n.waiting_for() == Some(a)
        &&& req.adapter == a
        &&& req.input@ == top.bytes
        &&& req.offset == top.candidates->Some_0[top.next as int].offset
    }
}

/// The search for the candidates of the region under examination: none below
/// the depth limit; otherwise every place where a signature's magic value
/// stands, or the error of the first signature whose magic value is not
/// hexadecimal.
pub open spec fn search_step(run: AnalysisRun, r: AnalysisStep) -> bool {
    let rs = run.regions();
    let top = rs.last();
    let sigs = run.engine().spec_database().signatures@;
    if top.depth >= run.limits().max_depth {
        r matches AnalysisStep::Continue(n) && continues_with(
            run,
            n,
            with_last(rs, RegionView { candidates: Some(seq![]), ..top }),
            run.next_id(),
        )
    } else {
        match first_invalid_magic(sigs, 0) {
            Some(k) => r matches AnalysisStep::Finished(Err(DrillError::Hex(m))) && m@ == invalid_magic(
                sigs[k].magic@,
            ),
            None => r matches AnalysisStep::Continue(n) && {
                let top2 = n.regions().last();
                &&& continues_with(run, n, with_last(rs, top2), run.next_id())
                &&& top2 == (RegionView { candidates: top2.candidates, ..top })
                &&& top2.candidates matches Some(cs) && candidates_are(
                    cs,
                    candidate_pairs(sigs, top.bytes, top.bytes.len() + 1int),
                    sigs,
                )
            },
        }
    }
}

/// The next file extracted from the detected region `p` of the region under
/// examination: skipped when it exceeds the extraction limit, otherwise a
/// node for it, numbered with the next number, opens a region of its own one
/// level deeper. With no file left, the detected region joins the children
/// of the region under examination and the next candidate is up.
pub open spec fn pending_step(run: AnalysisRun, p: PendingView, r: AnalysisStep) -> bool {
    let rs = run.regions();
    let top = rs.last();
    let id = run.next_id();
    r matches AnalysisStep::Continue(n) && if p.extracted.len() > 0 {
        let e = p.extracted[0];
        let top2 = RegionView { pending: Some(PendingView { node: p.node, extracted: p.extracted.drop_first() }), ..top };
        if e.bytes@.len() > run.limits().max_extracted_size {
            continues_with(run, n, with_last(rs, top2), id)
        } else {
            let inner = n.regions().last();
            &&& continues_with(run, n, with_last(rs, top2).push(inner), next_number(id))
            &&& is_extracted_node(
                inner.node,
                e,
                top.candidates->Some_0[top.next as int].signature.dependency,
                id,
            )
            &&& inner == (RegionView {
                node: inner.node,
                bytes: e.bytes@,
                depth: top.depth + 1,
                candidates: None,
                next: 0,
                pending: None,
            })
        }
    } else {
        let top2 = n.regions().last();
        &&& continues_with(run, n, with_last(rs, top2), id)
        &&& top2 == (RegionView { node: top2.node, next: top.next + 1, pending: None, ..top })
        &&& appended(top.node, p.node, top2.node)
    }
}

/// The end of the region under examination, once its candidates are
/// exhausted or it has as many children as allowed: the whole file ends the
/// analysis with its manifest; an extracted file joins the detected region it
/// came from as its last child.
pub open spec fn finish_step(run: AnalysisRun, r: AnalysisStep) -> bool {
    let rs = run.regions();
    let top = rs.last();
    if rs.len() == 1 {
        r matches AnalysisStep::Finished(Ok(m)) && finished_manifest(run, m) && m.root == top.node
    } else {
        let parent = rs[rs.len() - 2];
        r matches AnalysisStep::Continue(n) && {
            let parent2 = n.regions().last();
            &&& continues_with(run, n, rs.drop_last().drop_last().push(parent2), run.next_id())
            &&& parent2 == (RegionView { pending: parent2.pending, ..parent })
            &&& parent.pending matches Some(pp) && parent2.pending matches Some(pp2) && pp2.extracted
                == pp.extracted && appended(pp.node, top.node, pp2.node)
        }
    }
}

/// The examination of the next candidate `c` of the region under
/// examination: its detector's conclusion recorded, a request for the tool
/// the detector needs, or the error of a missing detector.
pub open spec fn examine_step(run: AnalysisRun, c: Candidate, r: AnalysisStep) -> bool {
    let rs = run.regions();
    let top = rs.last();
    match r {
        AnalysisStep::Finished(Ok(_)) => false,
        AnalysisStep::Finished(Err(e)) => check_outcome(top.bytes, c, Err(e)),
        AnalysisStep::RunTool(n, req) => check_outcome(top.bytes, c, Ok(CandidateCheck::RunAdapter(req.adapter)))
            && asks_for_tool(run, req.adapter, r),
        AnalysisStep::Continue(n) => {
            let top2 = n.regions().last();
            &&& continues_with(run, n, with_last(rs, top2), n.next_id())
            &&& exists|d: DetectionResult| #[trigger]
                records(top, d, run.next_id(), top2, n.next_id()) && check_outcome(
                    top.bytes,
                    c,
                    Ok(CandidateCheck::Finished(d)),
                )
        },
    }
}

/// What one step does to the analysis `run` given `event`. While the
/// analysis waits for a tool, the tool's outcome is recorded as the
/// conclusion on the candidate under examination (and without an outcome the
/// request is repeated). Otherwise the region under examination, the last of
/// the regions, has its candidates searched first; then the files extracted
/// from a detected region are analyzed one by one; then its candidates are
/// examined in order; and at the end the region is closed.
pub open spec fn step_transition(
    run: AnalysisRun,
    event: Option<Result<ExternalAnalysis, String>>,
    r: AnalysisStep,
) -> bool {
    let rs = run.regions();
    let top = rs.last();
    match run.waiting_for() {
        Some(a) => match event {
            None => asks_for_tool(run, a, r),
            Some(outcome) => r matches AnalysisStep::Continue(n) && {
                let top2 = n.regions().last();
                &&& continues_with(run, n, with_last(rs, top2), n.next_id())
                &&& exists|d: DetectionResult| #[trigger]
                    records(top, d, run.next_id(), top2, n.next_id()) && tool_outcome(
                        top.bytes,
                        top.candidates->Some_0[top.next as int],
                        a,
                        outcome,
                        d,
                    )
            },
        },
        None => match top.candidates {
            None => search_step(run, r),
            Some(cs) => match top.pending {
                Some(p) => pending_step(run, p, r),
                None => if top.next >= cs.len() || top.node.children@.len() >= run.limits().max_children_per_node {
                    finish_step(run, r)
                } else {
                    examine_step(run, cs[top.next as int], r)
                },
            },
        },
    }
}

/// Records a detector's conclusion about the candidate under examination:
/// a node for it, waiting for its extracted files, or on to the next candidate.
#[verifier::rlimit(50)]
fn record_result(f: &mut Frame, result: DetectionResult, counter: &mut usize, Ghost(limits): Ghost<AnalysisLimits>)
    requires
        frame_wf(*old(f), limits),
        old(f).candidates matches Some(cs) && old(f).next < cs@.len(),
        old(f).pending is None,
        old(f).node.children@.len() < limits.max_children_per_node,
    ensures
        frame_wf(*final(f), limits),
        same_header(*old(f), *final(f)),
        records(frame_view(*old(f)), result, *old(counter) as nat, frame_view(*final(f)), *final(counter) as nat),
{
    let ghost f0 = *f;
    let cand = f.candidates.as_ref().unwrap();
    assert(f.next < cand.len());
    let made = candidate_node(f.bytes.as_slice(), &cand[f.next], result, *counter);
    match made {
        None => {
            f.next = f.next + 1;
            assert(frame_view(*f) == (RegionView { next: frame_view(f0).next + 1, ..frame_view(f0) }));
        },
        Some((node, extracted)) => {
            *counter = counter.wrapping_add(1);
            assert(node.children@.len() == 0);
            f.pending = Some(PendingChild { node, extracted });
            assert(frame_view(*f) == (RegionView { pending: frame_view(*f).pending, ..frame_view(f0) }));
        },
    }
}

/// The regions of `frames`.
spec fn views(frames: Seq<Frame>) -> Seq<RegionView> {
    frames.map_values(|f: Frame| frame_view(f))
}

proof fn lemma_views_replace_top(frames: Seq<Frame>, f: Frame)
    requires
        frames.len() >= 1,
    ensures
        views(frames.drop_last().push(f)) == with_last(views(frames), frame_view(f)),
        views(frames).last() == frame_view(frames.last()),
{
    assert(views(frames.drop_last().push(f)) =~= with_last(views(frames), frame_view(f)));
}

proof fn lemma_views_push(frames: Seq<Frame>, g: Frame)
    ensures
        views(frames.push(g)) == views(frames).push(frame_view(g)),
{
    assert(views(frames.push(g)) =~= views(frames).push(frame_view(g)));
}

proof fn lemma_views_drop(frames: Seq<Frame>)
    requires
        frames.len() >= 1,
    ensures
        views(frames.drop_last()) == views(frames).drop_last(),
{
    assert(views(frames.drop_last()) =~= views(frames).drop_last());
}

proof fn lemma_tool_recorded(
    top: RegionView,
    d: DetectionResult,
    id: nat,
    top2: RegionView,
    id2: nat,
    a: Adapter,
    outcome: Result<ExternalAnalysis, String>,
)
    requires
        records(top, d, id, top2, id2),
        tool_outcome(top.bytes, top.candidates->Some_0[top.next as int], a, outcome, d),
    ensures
        exists|d2: DetectionResult| #[trigger]
            records(top, d2, id, top2, id2) && tool_outcome(
                top.bytes,
                top.candidates->Some_0[top.next as int],
                a,
                outcome,
                d2,
            ),
{
}

proof fn lemma_check_recorded(top: RegionView, c: Candidate, d: DetectionResult, id: nat, top2: RegionView, id2: nat)
    requires
        records(top, d, id, top2, id2),
        check_outcome(top.bytes, c, Ok(CandidateCheck::Finished(d))),
    ensures
        exists|d2: DetectionResult| #[trigger]
            records(top, d2, id, top2, id2) && check_outcome(top.bytes, c, Ok(CandidateCheck::Finished(d2))),
{
}

impl<'a> AnalysisRun<'a> {
    /// Takes one step of the analysis. `event` is the outcome of the tool
    /// that the previous step requested, when it requested one: the finished
    /// run, or the text of its failure.
    #[verifier::rlimit(50)]
    pub fn step(self, event: Option<Result<ExternalAnalysis, String>>) -> (r: AnalysisStep<'a>)
        requires
            self.wf(),
        ensures
            step_transition(self, event, r),
    {
        proof {
            lemma_views_replace_top(self.frames@, self.frames@.last());
        }
        if self.waiting.is_some() {
            match event {
                Some(outcome) => self.resume_tool(outcome),
                None => self.repeat_request(),
            }
        } else {
            let n = self.frames.len();
            let f = &self.frames[n - 1];
            if f.candidates.is_none() {
                self.load_candidates()
            } else if f.pending.is_some() {
                self.advance_pending()
            } else {
                self.examine_next()
            }
        }
    }

    #[verifier::rlimit(50)]
    fn repeat_request(self) -> (r: AnalysisStep<'a>)
        requires
            self.wf(),
            self.waiting is Some,
        ensures
            asks_for_tool(self, self.waiting_for()->Some_0, r),
    {
        proof {
            lemma_views_replace_top(self.frames@, self.frames@.last());
        }
        let n = self.frames.len();
        let f = &self.frames[n - 1];
        let cs = f.candidates.as_ref().unwrap();
        let request = ToolRequest {
            adapter: self.waiting.unwrap(),
            input: vstd::slice::slice_to_vec(f.bytes.as_slice()),
            offset: cs[f.next].offset,
        };
        AnalysisStep::RunTool(self, request)
    }

    #[verifier::rlimit(100)]
    fn resume_tool(self, outcome: Result<ExternalAnalysis, String>) -> (r: AnalysisStep<'a>)
        requires
            self.wf(),
            self.waiting is Some,
        ensures
            r matches AnalysisStep::Continue(n) && {
                let top = self.regions().last();
                let top2 = n.regions().last();
                &&& continues_with(self, n, with_last(self.regions(), top2), n.next_id())
                &&& exists|d: DetectionResult| #[trigger]
                    records(top, d, self.next_id(), top2, n.next_id()) && tool_outcome(
                        top.bytes,
                        top.candidates->Some_0[top.next as int],
                        self.waiting_for()->Some_0,
                        outcome,
                        d,
                    )
            },
    {
        let ghost old_frames = self.frames@;
        let ghost old_id = self.id_counter;
        let ghost limits = self.engine.spec_limits();
        let ghost outcome0 = outcome;
        let ghost old_run = self;
        let AnalysisRun { engine, mut frames, mut id_counter, waiting, original_file, total_size, sha256 } = self;
        let adapter = waiting.unwrap();
        let mut f = frames.pop().unwrap();
        assert(f == top(old_frames));
        let result = {
            let cs = f.candidates.as_ref().unwrap();
            external_tool_result(f.bytes.as_slice(), &cs[f.next], adapter, outcome)
        };
        let ghost d = result;
        let ghost f0 = f;
        record_result(&mut f, result, &mut id_counter, Ghost(limits));
        proof {
            lemma_replace_top(old_frames, f, limits);
            lemma_views_replace_top(old_frames, f);
            assert(frames@ == old_frames.drop_last());
            assert(tool_outcome(frame_view(f0).bytes, frame_view(f0).candidates->Some_0[frame_view(f0).next as int], adapter, outcome0, d));
        }
        frames.push(f);
        let run = AnalysisRun { engine, frames, id_counter, waiting: None, original_file, total_size, sha256 };
        proof {
            assert(run.frames@ == old_frames.drop_last().push(f));
            assert(run.regions() == with_last(views(old_frames), frame_view(f)));
            assert(frame_view(f0) == views(old_frames).last());
            assert(records(frame_view(f0), d, old_id as nat, run.regions().last(), run.next_id()));
            assert(same_analysis(old_run, run));
            lemma_tool_recorded(old_run.regions().last(), d, old_run.next_id(), run.regions().last(), run.next_id(), adapter, outcome0);
        }
        AnalysisStep::Continue(run)
    }

    #[verifier::rlimit(50)]
    fn load_candidates(self) -> (r: AnalysisStep<'a>)
        requires
            self.wf(),
            self.waiting is None,
            top(self.frames@).candidates is None,
        ensures
            search_step(self, r),
    {
        let ghost old_frames = self.frames@;
        let ghost limits = self.engine.spec_limits();
        let ghost old_run = self;
        proof {
            lemma_views_replace_top(old_frames, old_frames.last());
        }
        let AnalysisRun { engine, mut frames, id_counter, waiting, original_file, total_size, sha256 } = self;
        let mut f = frames.pop().unwrap();
        assert(f == top(old_frames));
        let ghost f0 = f;
        let limits_now = engine.limits();
        if f.depth >= limits_now.max_depth {
            f.candidates = Some(Vec::new());
            assert(frame_view(f) == (RegionView { candidates: Some(seq![]), ..frame_view(f0) }));
        } else {
            match engine.find_candidates(f.bytes.as_slice()) {
                Ok(cs) => {
                    proof {
                        lemma_candidates_within(
                            cs@,
                            engine.spec_database().signatures@,
                            f.bytes@,
                            f.bytes@.len() + 1int,
                        );
                        lemma_candidates_sorted(
                            cs@,
                            engine.spec_database().signatures@,
                            f.bytes@,
                            f.bytes@.len() + 1int,
                        );
                    }
                    f.candidates = Some(cs);
                    assert(frame_view(f) == (RegionView { candidates: frame_view(f).candidates, ..frame_view(f0) }));
                },
                Err(e) => {
                    return AnalysisStep::Finished(Err(e));
                },
            }
        }
        proof {
            lemma_replace_top(old_frames, f, limits);
            lemma_views_replace_top(old_frames, f);
        }
        frames.push(f);
        let run = AnalysisRun { engine, frames, id_counter, waiting, original_file, total_size, sha256 };
        assert(run.regions() == with_last(old_run.regions(), frame_view(f)));
        AnalysisStep::Continue(run)
    }
}


proof fn lemma_drop_top(frames: Seq<Frame>, limits: AnalysisLimits)
    requires
        stack_wf(frames, limits),
        frames.len() >= 2,
    ensures
        stack_wf(frames.drop_last(), limits),
        frames.drop_last()[0] == frames[0],
        top(frames.drop_last()) == frames[frames.len() - 2],
{
    let n = frames.drop_last();
    assert forall|k: int| 0 <= k < n.len() implies frame_wf(#[trigger] n[k], limits) by {
        assert(n[k] == frames[k]);
    }
    assert forall|k: int| 0 <= k < n.len() - 1 implies frames_linked(#[trigger] n[k], n[k + 1], limits) by {
        assert(n[k] == frames[k]);
        assert(frames_linked(frames[k], frames[k + 1], limits));
    }
}

impl<'a> AnalysisRun<'a> {
    #[verifier::rlimit(50)]
    fn advance_pending(self) -> (r: AnalysisStep<'a>)
        requires
            self.wf(),
            self.waiting is None,
            top(self.frames@).candidates is Some,
            top(self.frames@).pending is Some,
        ensures
            pending_step(self, self.regions().last().pending->Some_0, r),
    {
        let ghost old_frames = self.frames@;
        let ghost limits = self.engine.spec_limits();
        proof {
            lemma_views_replace_top(old_frames, old_frames.last());
        }
        let AnalysisRun { engine, mut frames, mut id_counter, waiting, original_file, total_size, sha256 } = self;
        let limits_now = engine.limits();
        let mut f = frames.pop().unwrap();
        assert(f == top(old_frames));
        let ghost f0 = f;
        let mut p = f.pending.take().unwrap();
        let ghost p0 = p;
        if p.extracted.len() > 0 {
            let e = p.extracted.remove(0);
            assert(p.extracted@ =~= p0.extracted@.drop_first());
            if e.bytes.len() > limits_now.max_extracted_size {
                f.pending = Some(p);
                proof {
                    lemma_replace_top(old_frames, f, limits);
                    lemma_views_replace_top(old_frames, f);
                }
                frames.push(f);
            } else {
                let node = {
                    let cs = f.candidates.as_ref().unwrap();
                    extracted_node(&e, &cs[f.next].signature.dependency, id_counter)
                };
                id_counter = id_counter.wrapping_add(1);
                let g = Frame { node, bytes: e.bytes, depth: f.depth + 1, candidates: None, next: 0, pending: None };
                f.pending = Some(p);
                proof {
                    lemma_replace_top(old_frames, f, limits);
                    lemma_views_replace_top(old_frames, f);
                }
                frames.push(f);
                proof {
                    lemma_push_frame(frames@, g, limits);
                    lemma_views_push(frames@, g);
                }
                frames.push(g);
            }
        } else {
            assert(f.next < f.candidates->Some_0.len());
            f.node.children.push(p.node);
            f.next = f.next + 1;
            assert(frame_wf(f, limits)) by {
                assert forall|i: int| 0 <= i < f.node.children@.len() implies candidate_wf(
                    #[trigger] f.node.children@[i],
                    f.node.size as int,
                    f.depth as int,
                    limits,
                ) by {
                    if i < f.node.children@.len() - 1 {
                        assert(f.node.children@[i] == f0.node.children@[i]);
                    }
                }
            }
            proof {
                lemma_replace_top(old_frames, f, limits);
                lemma_views_replace_top(old_frames, f);
            }
            frames.push(f);
        }
        AnalysisStep::Continue(AnalysisRun { engine, frames, id_counter, waiting, original_file, total_size, sha256 })
    }

    #[verifier::rlimit(50)]
    fn examine_next(self) -> (r: AnalysisStep<'a>)
        requires
            self.wf(),
            self.waiting is None,
            top(self.frames@).candidates is Some,
            top(self.frames@).pending is None,
        ensures
            ({
                let top = self.regions().last();
                let cs = top.candidates->Some_0;
                if top.next >= cs.len() || top.node.children@.len() >= self.limits().max_children_per_node {
                    finish_step(self, r)
                } else {
                    examine_step(self, cs[top.next as int], r)
                }
            }),
    {
        proof {
            lemma_views_replace_top(self.frames@, self.frames@.last());
        }
        let n = self.frames.len();
        let limits_now = self.engine.limits();
        let more = {
            let f = &self.frames[n - 1];
            let cs = f.candidates.as_ref().unwrap();
            f.next < cs.len() && f.node.children.len() < limits_now.max_children_per_node
        };
        if !more {
            self.finish_frame()
        } else {
            self.examine_candidate()
        }
    }

    #[verifier::rlimit(50)]
    fn examine_candidate(self) -> (r: AnalysisStep<'a>)
        requires
            self.wf(),
            self.waiting is None,
            top(self.frames@).candidates matches Some(cs) && top(self.frames@).next < cs@.len(),
            top(self.frames@).node.children@.len() < self.engine.spec_limits().max_children_per_node,
            top(self.frames@).pending is None,
        ensures
            examine_step(self, self.regions().last().candidates->Some_0[self.regions().last().next as int], r),
    {
        proof {
            lemma_views_replace_top(self.frames@, self.frames@.last());
        }
        let n = self.frames.len();
        let check = {
            let f = &self.frames[n - 1];
            let cs = f.candidates.as_ref().unwrap();
            self.engine.validate_candidate(f.bytes.as_slice(), &cs[f.next])
        };
        let ghost old_run = self;
        match check {
            Err(e) => AnalysisStep::Finished(Err(e)),
            Ok(CandidateCheck::Finished(d)) => {
                let ghost d0 = d;
                let r = self.record_conclusion(d);
                proof {
                    lemma_check_recorded(
                        old_run.regions().last(),
                        old_run.regions().last().candidates->Some_0[old_run.regions().last().next as int],
                        d0,
                        old_run.next_id(),
                        r->Continue_0.regions().last(),
                        r->Continue_0.next_id(),
                    );
                }
                r
            },
            Ok(CandidateCheck::RunAdapter(adapter)) => self.request_tool(adapter),
        }
    }

    #[verifier::rlimit(100)]
    fn record_conclusion(self, d: DetectionResult) -> (r: AnalysisStep<'a>)
        requires
            self.wf(),
            self.waiting is None,
            top(self.frames@).candidates matches Some(cs) && top(self.frames@).next < cs@.len(),
            top(self.frames@).node.children@.len() < self.engine.spec_limits().max_children_per_node,
            top(self.frames@).pending is None,
        ensures
            r matches AnalysisStep::Continue(n) && {
                let top2 = n.regions().last();
                &&& continues_with(self, n, with_last(self.regions(), top2), n.next_id())
                &&& records(self.regions().last(), d, self.next_id(), top2, n.next_id())
            },
    {
        let ghost old_frames = self.frames@;
        let ghost limits = self.engine.spec_limits();
        let ghost d0 = d;
        proof {
            lemma_views_replace_top(old_frames, old_frames.last());
        }
        let AnalysisRun { engine, mut frames, mut id_counter, waiting, original_file, total_size, sha256 } = self;
        let ghost old_id = id_counter;
        let mut f = frames.pop().unwrap();
        assert(f == top(old_frames));
        let ghost f0 = f;
        record_result(&mut f, d, &mut id_counter, Ghost(limits));
        proof {
            lemma_replace_top(old_frames, f, limits);
            lemma_views_replace_top(old_frames, f);
        }
        frames.push(f);
        let run = AnalysisRun { engine, frames, id_counter, waiting, original_file, total_size, sha256 };
        proof {
            assert(run.frames@ == old_frames.drop_last().push(f));
            assert(records(frame_view(f0), d0, old_id as nat, run.regions().last(), run.next_id()));
        }
        AnalysisStep::Continue(run)
    }

    #[verifier::rlimit(50)]
    fn request_tool(self, adapter: Adapter) -> (r: AnalysisStep<'a>)
        requires
            self.wf(),
            self.waiting is None,
            top(self.frames@).candidates matches Some(cs) && top(self.frames@).next < cs@.len(),
            top(self.frames@).node.children@.len() < self.engine.spec_limits().max_children_per_node,
            top(self.frames@).pending is None,
            check_outcome(
                top(self.frames@).bytes@,
                top(self.frames@).candidates->Some_0@[top(self.frames@).next as int],
                Ok(CandidateCheck::RunAdapter(adapter)),
            ),
        ensures
            asks_for_tool(self, adapter, r),
    {
        proof {
            lemma_views_replace_top(self.frames@, self.frames@.last());
        }
        let n = self.frames.len();
        let request = {
            let f = &self.frames[n - 1];
            let cs = f.candidates.as_ref().unwrap();
            ToolRequest { adapter, input: vstd::slice::slice_to_vec(f.bytes.as_slice()), offset: cs[f.next].offset }
        };
        let AnalysisRun { engine, frames, id_counter, waiting, original_file, total_size, sha256 } = self;
        let run = AnalysisRun { engine, frames, id_counter, waiting: Some(adapter), original_file, total_size, sha256 };
        AnalysisStep::RunTool(run, request)
    }

    #[verifier::rlimit(50)]
    fn finish_frame(self) -> (r: AnalysisStep<'a>)
        requires
            self.wf(),
            self.waiting is None,
            top(self.frames@).candidates matches Some(cs) && (top(self.frames@).next >= cs@.len()
                || top(self.frames@).node.children@.len() >= self.engine.spec_limits().max_children_per_node),
            top(self.frames@).pending is None,
        ensures
            finish_step(self, r),
    {
        proof {
            lemma_views_replace_top(self.frames@, self.frames@.last());
        }
        if self.frames.len() == 1 {
            self.finish_root()
        } else {
            self.close_region()
        }
    }

    #[verifier::rlimit(50)]
    fn finish_root(self) -> (r: AnalysisStep<'a>)
        requires
            self.wf(),
            self.frames@.len() == 1,
            top(self.frames@).candidates matches Some(cs) && (top(self.frames@).next >= cs@.len()
                || top(self.frames@).node.children@.len() >= self.engine.spec_limits().max_children_per_node),
            top(self.frames@).pending is None,
        ensures
            r matches AnalysisStep::Finished(Ok(m)) && finished_manifest(self, m) && m.root == self.regions().last().node,
    {
        let ghost old_frames = self.frames@;
        let ghost limits = self.engine.spec_limits();
        proof {
            lemma_views_replace_top(old_frames, old_frames.last());
        }
        let AnalysisRun { engine, mut frames, id_counter, waiting, original_file, total_size, sha256 } = self;
        let f = frames.pop().unwrap();
        assert(f == old_frames[0]);
        assert(frame_wf(f, limits));
        assert(analyzed_wf(f.node, f.depth as int, limits));
        let manifest = Manifest {
            manifest_format: owned("drill_manifest_v1"),
            original_file,
            total_size,
            sha256,
            root: f.node,
        };
        AnalysisStep::Finished(Ok(manifest))
    }

    #[verifier::rlimit(100)]
    fn close_region(self) -> (r: AnalysisStep<'a>)
        requires
            self.wf(),
            self.waiting is None,
            self.frames@.len() >= 2,
            top(self.frames@).candidates matches Some(cs) && (top(self.frames@).next >= cs@.len()
                || top(self.frames@).node.children@.len() >= self.engine.spec_limits().max_children_per_node),
            top(self.frames@).pending is None,
        ensures
            r matches AnalysisStep::Continue(n) && {
                let rs = self.regions();
                let parent = rs[rs.len() - 2];
                let parent2 = n.regions().last();
                &&& continues_with(self, n, rs.drop_last().drop_last().push(parent2), self.next_id())
                &&& parent2 == (RegionView { pending: parent2.pending, ..parent })
                &&& parent.pending matches Some(pp) && parent2.pending matches Some(pp2) && pp2.extracted
                    == pp.extracted && appended(pp.node, rs.last().node, pp2.node)
            },
    {
        let ghost old_frames = self.frames@;
        let ghost limits = self.engine.spec_limits();
        proof {
            lemma_views_replace_top(old_frames, old_frames.last());
            lemma_drop_top(old_frames, limits);
            lemma_views_drop(old_frames);
            lemma_views_replace_top(old_frames.drop_last(), old_frames.drop_last().last());
        }
        let AnalysisRun { engine, mut frames, id_counter, waiting, original_file, total_size, sha256 } = self;
        let f = frames.pop().unwrap();
        assert(f == top(old_frames));
        assert(analyzed_wf(f.node, f.depth as int, limits));
        let ghost rest = frames@;
        let mut parent = frames.pop().unwrap();
        assert(parent == top(rest));
        assert(frames_linked(parent, f, limits)) by {
            assert(frames_linked(old_frames[old_frames.len() - 2], old_frames[old_frames.len() - 1], limits));
        }
        let mut p = parent.pending.take().unwrap();
        let ghost p0 = p.node;
        p.node.children.push(f.node);
        assert(candidate_wf(p.node, parent.node.size as int, parent.depth as int, limits)) by {
            assert forall|j: int| 0 <= j < p.node.children@.len() implies extracted_wf(
                #[trigger] p.node.children@[j],
                parent.depth + 1,
                limits,
            ) by {
                if j < p.node.children@.len() - 1 {
                    assert(p.node.children@[j] == p0.children@[j]);
                }
            }
        }
        parent.pending = Some(p);
        proof {
            lemma_replace_top(rest, parent, limits);
            lemma_views_replace_top(rest, parent);
        }
        frames.push(parent);
        AnalysisStep::Continue(AnalysisRun { engine, frames, id_counter, waiting, original_file, total_size, sha256 })
    }
}

} // verus!

verus! {

/// The data of the file under analysis, as the analysis holds it.
pub open spec fn file_data(run: AnalysisRun) -> Seq<u8> {
    run.regions()[0].bytes
}

proof fn lemma_with_last_keeps_first(rs: Seq<RegionView>, r: RegionView)
    requires
        rs.len() >= 1,
        r.bytes == rs.last().bytes,
    ensures
        with_last(rs, r).len() == rs.len(),
        with_last(rs, r)[0].bytes == rs[0].bytes,
{
}

proof fn lemma_records_keep_data(top: RegionView, d: DetectionResult, id: nat, top2: RegionView, id2: nat)
    requires
        records(top, d, id, top2, id2),
    ensures
        top2.bytes == top.bytes,
        top2.depth == top.depth,
{
}

/// Analysis never alters the file: every step that goes on keeps the data of
/// the file under analysis as it was.
#[verifier::rlimit(50)]
pub proof fn lemma_step_keeps_file_data(run: AnalysisRun, event: Option<Result<ExternalAnalysis, String>>, r: AnalysisStep)
    requires
        run.wf(),
        step_transition(run, event, r),
    ensures
        r matches AnalysisStep::Continue(n) ==> n.regions().len() >= 1 && file_data(n) == file_data(run),
        r matches AnalysisStep::RunTool(n, _) ==> n.regions().len() >= 1 && file_data(n) == file_data(run),
{
    let rs = run.regions();
    let top = rs.last();
    assert(rs.len() >= 1);
    match r {
        AnalysisStep::Finished(_) => {},
        AnalysisStep::RunTool(n, _) => {},
        AnalysisStep::Continue(n) => {
            let top2 = n.regions().last();
            match run.waiting_for() {
                Some(a) => {
                    let d = choose|d: DetectionResult| #[trigger]
                        records(top, d, run.next_id(), top2, n.next_id()) && tool_outcome(
                            top.bytes,
                            top.candidates->Some_0[top.next as int],
                            a,
                            event->Some_0,
                            d,
                        );
                    lemma_records_keep_data(top, d, run.next_id(), top2, n.next_id());
                    lemma_with_last_keeps_first(rs, top2);
                },
                None => match top.candidates {
                    None => {
                        if top.depth >= run.limits().max_depth {
                            lemma_with_last_keeps_first(rs, RegionView { candidates: Some(seq![]), ..top });
                        } else {
                            lemma_with_last_keeps_first(rs, top2);
                        }
                    },
                    Some(cs) => match top.pending {
                        Some(p) => {
                            if p.extracted.len() > 0 {
                                let top3 = RegionView {
                                    pending: Some(PendingView { node: p.node, extracted: p.extracted.drop_first() }),
                                    ..top
                                };
                                lemma_with_last_keeps_first(rs, top3);
                                if p.extracted[0].bytes@.len() <= run.limits().max_extracted_size {
                                    assert(with_last(rs, top3).push(n.regions().last())[0] == with_last(rs, top3)[0]);
                                }
                            } else {
                                lemma_with_last_keeps_first(rs, top2);
                            }
                        },
                        None => {
                            if top.next >= cs.len() || top.node.children@.len() >= run.limits().max_children_per_node {
                                assert(rs.len() >= 2);
                                let parent = rs[rs.len() - 2];
                                let parent2 = n.regions().last();
                                if rs.len() == 2 {
                                    assert(rs.drop_last().drop_last().push(parent2)[0] == parent2);
                                } else {
                                    assert(rs.drop_last().drop_last().push(parent2)[0] == rs[0]);
                                }
                            } else {
                                let c = cs[top.next as int];
                                let d = choose|d: DetectionResult| #[trigger]
                                    records(top, d, run.next_id(), top2, n.next_id()) && check_outcome(
                                        top.bytes,
                                        c,
                                        Ok(CandidateCheck::Finished(d)),
                                    );
                                lemma_records_keep_data(top, d, run.next_id(), top2, n.next_id());
                                lemma_with_last_keeps_first(rs, top2);
                            }
                        },
                    },
                },
            }
        },
    }
}

} // verus!

verus! {

/// How much work a region has left, most significant first: whether its
/// candidates are still to be searched; how many candidates are left from the
/// one under examination on; the stage of that candidate (3: to be examined,
/// 2: its tool is awaited, 1: the files extracted from it are analyzed); and
/// how many of those files are left.
pub open spec fn region_work(r: RegionView, waiting: bool) -> (nat, nat, nat, nat) {
    match r.candidates {
        None => (1, 0, 0, 0),
        Some(cs) => {
            let left: nat = if r.next <= cs.len() { (cs.len() - r.next) as nat } else { 0 };
            match r.pending {
                Some(p) => (0, left, 1, p.extracted.len()),
                None => if waiting { (0, left, 2, 0) } else { (0, left, 3, 0) },
            }
        },
    }
}

/// The work left in each region of an analysis, outermost first.
pub open spec fn work_left(run: AnalysisRun) -> Seq<(nat, nat, nat, nat)> {
    Seq::new(
        run.regions().len(),
        |i: int| region_work(run.regions()[i], run.waiting_for() is Some && i == run.regions().len() - 1),
    )
}

/// Less work in one region: compared component by component, most
/// significant first.
pub open spec fn work_less(a: (nat, nat, nat, nat), b: (nat, nat, nat, nat)) -> bool {
    ||| a.0 < b.0
    ||| a.0 == b.0 && a.1 < b.1
    ||| a.0 == b.0 && a.1 == b.1 && a.2 < b.2
    ||| a.0 == b.0 && a.1 == b.1 && a.2 == b.2 && a.3 < b.3
}

/// Less work in an analysis: compared region by region from the outermost
/// one; an analysis whose regions are the outer regions of another, with the
/// same work left in each, has less work than it.
pub open spec fn less_work(a: Seq<(nat, nat, nat, nat)>, b: Seq<(nat, nat, nat, nat)>) -> bool {
    ||| exists|k: int| 0 <= k < a.len() && k < b.len() && a.take(k) == b.take(k) && #[trigger] work_less(a[k], b[k])
    ||| a.len() < b.len() && a == b.take(a.len() as int)
}

proof fn lemma_depths(frames: Seq<Frame>, limits: AnalysisLimits, k: int)
    requires
        stack_wf(frames, limits),
        0 <= k < frames.len(),
    ensures
        frames[k].depth == k,
    decreases k,
{
    if k > 0 {
        lemma_depths(frames, limits, k - 1);
        assert(frames_linked(frames[k - 1], frames[k], limits));
    }
}

/// What the invariant of an analysis says of its regions.
proof fn lemma_wf_regions(run: AnalysisRun)
    requires
        run.wf(),
    ensures
        run.regions().len() >= 1,
        run.regions().len() <= run.limits().max_depth + 1,
        forall|i: int| 0 <= i < run.regions().len() ==> {
            let g = #[trigger] run.regions()[i];
            &&& (g.candidates matches Some(cs) ==> g.next <= cs.len())
            &&& (g.pending is Some ==> (g.candidates matches Some(cs) && g.next < cs.len()))
            &&& (i < run.regions().len() - 1 ==> g.pending is Some)
        },
        run.waiting_for() is Some ==> {
            let t = run.regions().last();
            t.candidates matches Some(cs) && t.next < cs.len() && t.pending is None
        },
{
    let frames = run.frames@;
    let limits = run.limits();
    lemma_depths(frames, limits, frames.len() - 1);
    assert(frame_wf(frames[frames.len() - 1], limits));
    assert forall|i: int| 0 <= i < run.regions().len() implies {
        let g = #[trigger] run.regions()[i];
        &&& (g.candidates matches Some(cs) ==> g.next <= cs.len())
        &&& (g.pending is Some ==> (g.candidates matches Some(cs) && g.next < cs.len()))
        &&& (i < run.regions().len() - 1 ==> g.pending is Some)
    } by {
        assert(frame_wf(frames[i], limits));
        if i < frames.len() - 1 {
            assert(frames_linked(frames[i], frames[i + 1], limits));
        }
    }
}

proof fn lemma_last_less(a: Seq<(nat, nat, nat, nat)>, b: Seq<(nat, nat, nat, nat)>)
    requires
        a.len() >= b.len() >= 1,
        a.take(b.len() - 1) == b.take(b.len() - 1),
        work_less(a[b.len() - 1], b[b.len() - 1]),
    ensures
        less_work(a, b),
{
    let k = b.len() - 1;
    assert(0 <= k < a.len() && k < b.len() && a.take(k) == b.take(k) && work_less(a[k], b[k]));
}

/// An analysis whose tool requests are answered ends: every step that goes on
/// leaves less work, compared region by region, and an analysis never holds
/// more regions than one per level of the depth limit.
#[verifier::rlimit(50)]
pub proof fn lemma_step_makes_progress(
    run: AnalysisRun,
    event: Option<Result<ExternalAnalysis, String>>,
    r: AnalysisStep,
)
    requires
        run.wf(),
        step_transition(run, event, r),
        run.waiting_for() is Some ==> event is Some,
    ensures
        run.regions().len() <= run.limits().max_depth + 1,
        r matches AnalysisStep::Continue(n) ==> less_work(work_left(n), work_left(run)),
        r matches AnalysisStep::RunTool(n, _) ==> less_work(work_left(n), work_left(run)),
{
    lemma_wf_regions(run);
    let rs = run.regions();
    let top = rs.last();
    let last = rs.len() - 1;
    let w = work_left(run);
    match r {
        AnalysisStep::Finished(_) => {},
        AnalysisStep::RunTool(n, req) => {
            // Only the examination of a candidate asks for a tool when the
            // analysis does not wait already.
            let wn = work_left(n);
            assert(n.regions() == rs);
            assert(wn.take(last) =~= w.take(last));
            lemma_last_less(wn, w);
        },
        AnalysisStep::Continue(n) => {
            lemma_wf_regions(n);
            let top2 = n.regions().last();
            let wn = work_left(n);
            match run.waiting_for() {
                Some(a) => {
                    let d = choose|d: DetectionResult| #[trigger]
                        records(top, d, run.next_id(), top2, n.next_id()) && tool_outcome(
                            top.bytes,
                            top.candidates->Some_0[top.next as int],
                            a,
                            event->Some_0,
                            d,
                        );
                    assert(n.regions() == with_last(rs, top2));
                    assert(wn.take(last) =~= w.take(last));
                    lemma_last_less(wn, w);
                },
                None => match top.candidates {
                    None => {
                        assert(wn.take(last) =~= w.take(last));
                        lemma_last_less(wn, w);
                    },
                    Some(cs) => match top.pending {
                        Some(p) => {
                            assert(wn.take(last) =~= w.take(last));
                            lemma_last_less(wn, w);
                        },
                        None => {
                            if top.next >= cs.len() || top.node.children@.len() >= run.limits().max_children_per_node {
                                assert(rs.len() >= 2);
                                assert(wn =~= w.take(last));
                            } else {
                                let c = cs[top.next as int];
                                let d = choose|d: DetectionResult| #[trigger]
                                    records(top, d, run.next_id(), top2, n.next_id()) && check_outcome(
                                        top.bytes,
                                        c,
                                        Ok(CandidateCheck::Finished(d)),
                                    );
                                assert(wn.take(last) =~= w.take(last));
                                lemma_last_less(wn, w);
                            }
                        },
                    },
                },
            }
        },
    }
}

} // verus!
