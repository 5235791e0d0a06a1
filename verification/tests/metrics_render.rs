use prometheus::proto::{Counter, Metric, MetricFamily, MetricType};
use scoopit_api_demo::metrics::{render_families, MetricsError};

fn family(name: &str, kind: MetricType, value: u32) -> MetricFamily {
    let mut counter = Counter::default();
    counter.set_value(value.into());
    let mut metric = Metric::default();
    metric.set_counter(counter);
    let mut family = MetricFamily::default();
    family.set_name(name.to_string());
    family.set_help("help".to_string());
    family.set_field_type(kind);
    family.mut_metric().push(metric);
    family
}

#[test]
fn no_families_render_to_nothing() {
    assert_eq!(render_families(&vec![]).unwrap(), "");
}

#[test]
fn a_counter_family_renders_to_its_text() {
    let text = render_families(&vec![family("jobs_total", MetricType::COUNTER, 3)]).unwrap();
    assert_eq!(text, "# HELP jobs_total help\n# TYPE jobs_total counter\njobs_total 3\n");
}

#[test]
fn families_render_in_the_order_given() {
    let text = render_families(&vec![
        family("b_total", MetricType::COUNTER, 1),
        family("a_total", MetricType::COUNTER, 2),
    ])
    .unwrap();
    let b = text.find("b_total 1\n").unwrap();
    let a = text.find("a_total 2\n").unwrap();
    assert!(b < a);
}

#[test]
fn an_untyped_family_is_reported_and_not_encoded() {
    let r = render_families(&vec![
        family("jobs_total", MetricType::COUNTER, 3),
        family("odd", MetricType::UNTYPED, 1),
    ]);
    assert!(matches!(r, Err(MetricsError::UntypedFamily)));
}

#[test]
fn a_family_without_a_name_is_an_encoder_error() {
    let r = render_families(&vec![family("", MetricType::COUNTER, 3)]);
    assert!(matches!(r, Err(MetricsError::Encode(_))));
}

#[test]
fn a_family_without_a_metric_is_an_encoder_error() {
    let mut empty = MetricFamily::default();
    empty.set_name("empty_total".to_string());
    empty.set_field_type(MetricType::COUNTER);
    let r = render_families(&vec![empty]);
    assert!(matches!(r, Err(MetricsError::Encode(_))));
}
