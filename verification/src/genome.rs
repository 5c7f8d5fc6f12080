//! Eight-layer genome mapping for the AURA and AIDEN agent systems.
//!
//! The genome holds a fixed list of eight layers together with an activation
//! flag per layer.  Each agent owns a fixed slice of the layers: AURA the
//! first three, AIDEN the remaining five.

use vstd::prelude::*;

verus! {

/// The eight genome layers, in their canonical order.
#[derive(Debug, Clone, Copy, PartialEq, Eq, Structural)]
pub enum GenomeLayer {
    /// L1: semantic genome
    SemanticGenome,
    /// L2: intent vectors
    IntentVectors,
    /// L3: collective intent
    CollectiveIntent,
    /// L4: capability matrix
    CapabilityMatrix,
    /// L5: resource analysis
    ResourceAnalysis,
    /// L6: prompt enhancement
    PromptEnhance,
    /// L7: project planning
    ProjectPlan,
    /// L8: CCCE update
    CcceUpdate,
}

impl GenomeLayer {
    /// The layer's position in the canonical order, counted from 1.
    pub open spec fn spec_number(self) -> u8 {
        match self {
            GenomeLayer::SemanticGenome => 1,
            GenomeLayer::IntentVectors => 2,
            GenomeLayer::CollectiveIntent => 3,
            GenomeLayer::CapabilityMatrix => 4,
            GenomeLayer::ResourceAnalysis => 5,
            GenomeLayer::PromptEnhance => 6,
            GenomeLayer::ProjectPlan => 7,
            GenomeLayer::CcceUpdate => 8,
        }
    }

    /// Layer number, 1 through 8.
    pub fn number(&self) -> (n: u8)
        ensures
            n == self.spec_number(),
            1 <= n <= 8,
    {
        match self {
            GenomeLayer::SemanticGenome => 1,
            GenomeLayer::IntentVectors => 2,
            GenomeLayer::CollectiveIntent => 3,
            GenomeLayer::CapabilityMatrix => 4,
            GenomeLayer::ResourceAnalysis => 5,
            GenomeLayer::PromptEnhance => 6,
            GenomeLayer::ProjectPlan => 7,
            GenomeLayer::CcceUpdate => 8,
        }
    }

    /// The layer's textual name.
    pub fn name(&self) -> (s: &'static str)
        ensures
            s@ == self.spec_name(),
    {
        match self {
            GenomeLayer::SemanticGenome => "semantic_genome",
            GenomeLayer::IntentVectors => "intent_vectors",
            GenomeLayer::CollectiveIntent => "collective_intent",
            GenomeLayer::CapabilityMatrix => "capability_matrix",
            GenomeLayer::ResourceAnalysis => "resource_analysis",
            GenomeLayer::PromptEnhance => "prompt_enhance",
            GenomeLayer::ProjectPlan => "project_plan",
            GenomeLayer::CcceUpdate => "CCCE_update",
        }
    }

    /// The textual name as a character sequence.
    pub open spec fn spec_name(self) -> Seq<char> {
        match self {
            GenomeLayer::SemanticGenome => "semantic_genome"@,
            GenomeLayer::IntentVectors => "intent_vectors"@,
            GenomeLayer::CollectiveIntent => "collective_intent"@,
            GenomeLayer::CapabilityMatrix => "capability_matrix"@,
            GenomeLayer::ResourceAnalysis => "resource_analysis"@,
            GenomeLayer::PromptEnhance => "prompt_enhance"@,
            GenomeLayer::ProjectPlan => "project_plan"@,
            GenomeLayer::CcceUpdate => "CCCE_update"@,
        }
    }
}

/// The full layer list in canonical order, as a specification value.
pub open spec fn canonical_layers() -> Seq<GenomeLayer> {
    seq![
        GenomeLayer::SemanticGenome,
        GenomeLayer::IntentVectors,
        GenomeLayer::CollectiveIntent,
        GenomeLayer::CapabilityMatrix,
        GenomeLayer::ResourceAnalysis,
        GenomeLayer::PromptEnhance,
        GenomeLayer::ProjectPlan,
        GenomeLayer::CcceUpdate,
    ]
}

/// Agent identity for the genome mapping.
#[derive(Debug, Clone, Copy, PartialEq, Eq, Structural)]
pub enum AgentType {
    /// AURA owns layers L1, L2 and L3.
    Aura,
    /// AIDEN owns layers L4 through L8.
    Aiden,
}

impl AgentType {
    /// The layers owned by this agent, as a specification value.
    pub open spec fn spec_layers(self) -> Seq<GenomeLayer> {
        match self {
            AgentType::Aura => canonical_layers().subrange(0, 3),
            AgentType::Aiden => canonical_layers().subrange(3, 8),
        }
    }

    /// The layers mapped to this agent, in canonical order.
    pub fn layers(&self) -> (v: Vec<GenomeLayer>)
        ensures
            v@ == self.spec_layers(),
    {
        match self {
            AgentType::Aura => {
                let v = vec![
                    GenomeLayer::SemanticGenome,
                    GenomeLayer::IntentVectors,
                    GenomeLayer::CollectiveIntent,
                ];
                proof {
                    assert(v@ =~= self.spec_layers());
                }
                v
            },
            AgentType::Aiden => {
                let v = vec![
                    GenomeLayer::CapabilityMatrix,
                    GenomeLayer::ResourceAnalysis,
                    GenomeLayer::PromptEnhance,
                    GenomeLayer::ProjectPlan,
                    GenomeLayer::CcceUpdate,
                ];
                proof {
                    assert(v@ =~= self.spec_layers());
                }
                v
            },
        }
    }

    /// The agent's display name.
    pub fn name(&self) -> (s: &'static str)
        ensures
            self is Aura ==> s@ == "AURA"@,
            self is Aiden ==> s@ == "AIDEN"@,
    {
        match self {
            AgentType::Aura => "AURA",
            AgentType::Aiden => "AIDEN",
        }
    }

    /// The agent's layer set, rendered as a brace-delimited list.
    pub fn layer_string(&self) -> (s: String)
        ensures
            self is Aura ==> s@ == "{L1, L2, L3}"@,
            self is Aiden ==> s@ == "{L4, L5, L6, L7, L8}"@,
    {
        match self {
            AgentType::Aura => "{L1, L2, L3}".to_owned(),
            AgentType::Aiden => "{L4, L5, L6, L7, L8}".to_owned(),
        }
    }
}

/// The eight-layer genome: the canonical layer list plus one activation flag
/// per layer.
#[derive(Debug)]
pub struct Genome {
    pub layers: Vec<GenomeLayer>,
    pub active: [bool; 8],
}

impl Genome {
    /// A well-formed genome holds exactly the canonical layer list.
    pub open spec fn wf(self) -> bool {
        self.layers@ == canonical_layers()
    }

    /// Create a new genome with all eight layers present and active.
    pub fn new() -> (g: Genome)
        ensures
            g.wf(),
            forall|i: int| 0 <= i < 8 ==> g.active[i],
    {
        let g = Genome {
            layers: vec![
                GenomeLayer::SemanticGenome,
                GenomeLayer::IntentVectors,
                GenomeLayer::CollectiveIntent,
                GenomeLayer::CapabilityMatrix,
                GenomeLayer::ResourceAnalysis,
                GenomeLayer::PromptEnhance,
                GenomeLayer::ProjectPlan,
                GenomeLayer::CcceUpdate,
            ],
            active: [true; 8],
        };
        proof {
            assert(g.layers@ =~= canonical_layers());
        }
        g
    }

    /// Total number of layers.
    pub fn layer_count(&self) -> (n: usize)
        ensures
            n == self.layers@.len(),
    {
        self.layers.len()
    }

    /// Number of layers currently active.
    pub fn active_count(&self) -> (n: usize)
        ensures
            n == count_active(self.active@, 8),
    {
        let mut n: usize = 0;
        let mut i: usize = 0;
        while i < 8
            invariant
                0 <= i <= 8,
                n == count_active(self.active@, i as int),
                n <= i,
            decreases 8 - i,
        {
            if self.active[i] {
                n = n + 1;
            }
            i = i + 1;
        }
        n
    }

    /// Mark a layer active.
    pub fn activate(&mut self, layer: GenomeLayer)
        ensures
            final(self).layers == old(self).layers,
            final(self).active@ == old(self).active@.update(
                layer.spec_number() - 1,
                true,
            ),
    {
        let idx = (layer.number() - 1) as usize;
        self.active[idx] = true;
    }

    /// Mark a layer inactive.
    pub fn deactivate(&mut self, layer: GenomeLayer)
        ensures
            final(self).layers == old(self).layers,
            final(self).active@ == old(self).active@.update(
                layer.spec_number() - 1,
                false,
            ),
    {
        let idx = (layer.number() - 1) as usize;
        self.active[idx] = false;
    }

    /// Whether a layer is currently active.
    pub fn is_active(&self, layer: GenomeLayer) -> (b: bool)
        ensures
            b == self.active[layer.spec_number() - 1],
    {
        let idx = (layer.number() - 1) as usize;
        self.active[idx]
    }
}

/// Number of `true` flags among the first `n` activation slots.
pub open spec fn count_active(flags: Seq<bool>, n: int) -> int
    decreases n,
{
    if n <= 0 {
        0
    } else {
        count_active(flags, n - 1) + if flags[n - 1] { 1int } else { 0int }
    }
}

} // verus!
