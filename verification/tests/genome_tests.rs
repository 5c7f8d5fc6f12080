use crsm7::genome::{AgentType, Genome, GenomeLayer};

#[test]
fn test_new_genome_has_eight_active_layers() {
    let g = Genome::new();
    assert_eq!(g.layer_count(), 8);
    assert_eq!(g.active_count(), 8);
}

#[test]
fn test_deactivate_and_reactivate_layer() {
    let mut g = Genome::new();
    g.deactivate(GenomeLayer::PromptEnhance);
    assert!(!g.is_active(GenomeLayer::PromptEnhance));
    assert_eq!(g.active_count(), 7);
    g.activate(GenomeLayer::PromptEnhance);
    assert!(g.is_active(GenomeLayer::PromptEnhance));
    assert_eq!(g.active_count(), 8);
}

#[test]
fn test_deactivate_is_per_layer() {
    let mut g = Genome::new();
    g.deactivate(GenomeLayer::SemanticGenome);
    assert!(!g.is_active(GenomeLayer::SemanticGenome));
    assert!(g.is_active(GenomeLayer::IntentVectors));
    assert!(g.is_active(GenomeLayer::CcceUpdate));
}

#[test]
fn test_layer_numbers_are_one_through_eight() {
    assert_eq!(GenomeLayer::SemanticGenome.number(), 1);
    assert_eq!(GenomeLayer::IntentVectors.number(), 2);
    assert_eq!(GenomeLayer::CollectiveIntent.number(), 3);
    assert_eq!(GenomeLayer::CapabilityMatrix.number(), 4);
    assert_eq!(GenomeLayer::ResourceAnalysis.number(), 5);
    assert_eq!(GenomeLayer::PromptEnhance.number(), 6);
    assert_eq!(GenomeLayer::ProjectPlan.number(), 7);
    assert_eq!(GenomeLayer::CcceUpdate.number(), 8);
}

#[test]
fn test_layer_names() {
    assert_eq!(GenomeLayer::SemanticGenome.name(), "semantic_genome");
    assert_eq!(GenomeLayer::CcceUpdate.name(), "CCCE_update");
}

#[test]
fn test_agent_layer_mapping() {
    let aura = AgentType::Aura.layers();
    assert_eq!(
        aura,
        vec![
            GenomeLayer::SemanticGenome,
            GenomeLayer::IntentVectors,
            GenomeLayer::CollectiveIntent,
        ]
    );
    let aiden = AgentType::Aiden.layers();
    assert_eq!(aiden.len(), 5);
    assert_eq!(aiden[0], GenomeLayer::CapabilityMatrix);
    assert_eq!(aiden[4], GenomeLayer::CcceUpdate);
}

#[test]
fn test_agent_names_and_layer_strings() {
    assert_eq!(AgentType::Aura.name(), "AURA");
    assert_eq!(AgentType::Aiden.name(), "AIDEN");
    assert_eq!(AgentType::Aura.layer_string(), "{L1, L2, L3}");
    assert_eq!(AgentType::Aiden.layer_string(), "{L4, L5, L6, L7, L8}");
}
