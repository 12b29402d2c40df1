use sedentary_tracker::fhir_analytics::default_limit;
use sedentary_tracker::fhir_analytics::default_period;
use sedentary_tracker::fhir_analytics::CodeableConcept;
use sedentary_tracker::fhir_analytics::Coding;
use sedentary_tracker::fhir_analytics::QueryParams;
use sedentary_tracker::fhir_analytics::Reference;
use sedentary_tracker::fhir_analytics::DEFAULT_LIMIT;

#[test]
fn query_defaults() {
    assert_eq!(default_period(), "daily");
    assert_eq!(default_limit(), 30);
    assert_eq!(DEFAULT_LIMIT, 30);
    let params = QueryParams::new(None, None);
    assert_eq!(params.period(), "daily");
    assert_eq!(params.limit(), 30);
}

#[test]
fn query_keeps_what_it_names() {
    let params = QueryParams::new(Some("weekly".to_string()), Some(7));
    assert_eq!(params.period(), "weekly");
    assert_eq!(params.limit(), 7);
    let mixed = QueryParams::new(None, Some(-1));
    assert_eq!(mixed.period(), "daily");
    assert_eq!(mixed.limit(), -1);
}

#[test]
fn coded_concept() {
    let coding = Coding::new("http://loinc.org", "87705-0", "Sedentary activity 24 hour");
    assert_eq!(coding.system, "http://loinc.org");
    assert_eq!(coding.code, "87705-0");
    assert_eq!(coding.display, "Sedentary activity 24 hour");
    let concept = CodeableConcept::single(coding, "Sedentary activity 24 hour");
    assert_eq!(concept.coding.len(), 1);
    assert_eq!(concept.coding[0].code, "87705-0");
    assert_eq!(concept.text, "Sedentary activity 24 hour");
}

#[test]
fn patient_reference() {
    assert_eq!(Reference::patient("42").reference, "Patient/42");
    assert_eq!(Reference::patient("").reference, "Patient/");
}
