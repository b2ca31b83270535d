use raytracer::trace::BounceEvent;
use raytracer::trace::TraceStep;
use raytracer::trace::next_step;

#[test]
fn spent_budget_always_yields_black() {
    assert_eq!(next_step(0, BounceEvent::Miss), TraceStep::Black);
    assert_eq!(next_step(0, BounceEvent::Absorbed), TraceStep::Black);
    assert_eq!(next_step(0, BounceEvent::Scattered), TraceStep::Black);
}

#[test]
fn miss_yields_the_background() {
    assert_eq!(next_step(1, BounceEvent::Miss), TraceStep::Background);
    assert_eq!(next_step(50, BounceEvent::Miss), TraceStep::Background);
}

#[test]
fn absorption_yields_black() {
    assert_eq!(next_step(1, BounceEvent::Absorbed), TraceStep::Black);
    assert_eq!(next_step(50, BounceEvent::Absorbed), TraceStep::Black);
}

#[test]
fn scattering_consumes_one_bounce() {
    assert_eq!(
        next_step(1, BounceEvent::Scattered),
        TraceStep::Bounce { remaining: 0 }
    );
    assert_eq!(
        next_step(50, BounceEvent::Scattered),
        TraceStep::Bounce { remaining: 49 }
    );
}

#[test]
fn a_path_stops_after_at_most_its_budget_of_bounces() {
    let mut remaining = 3;
    let mut bounces = 0;
    loop {
        match next_step(remaining, BounceEvent::Scattered) {
            TraceStep::Bounce { remaining: rest } => {
                bounces += 1;
                remaining = rest;
            }
            step => {
                assert_eq!(step, TraceStep::Black);
                break;
            }
        }
    }
    assert_eq!(bounces, 3);
}
