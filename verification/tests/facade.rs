// One test to the file: the test gives the `log` facade of its process a logger.

use logging::facade::is_refusal;
use tracing_log::LogTracer;

#[test]
fn a_refusal_is_the_answer_of_a_facade_that_has_a_logger() {
    assert!(!is_refusal(Ok(())));
    let first = LogTracer::init();
    let second = LogTracer::init();
    assert!(!is_refusal(first));
    assert!(is_refusal(second));
}
