use flatcrawl::city::City;
use flatcrawl::crawlers::Config;
use flatcrawl::crawlers::CrawlerImpl;
use flatcrawl::dom::Encoding;
use flatcrawl::executor::Round;
use flatcrawl::flat::Flat;

fn target(path: &str) -> Config {
    Config {
        host: String::from("example.test"),
        path: String::from(path),
        city: City::Munich,
        encoding: Encoding::Utf8,
        crawler: CrawlerImpl::WGGesucht,
    }
}

#[test]
fn workers_drain_the_queue_and_rendezvous() {
    let targets = vec![target("/a"), target("/b")];
    let mut round = Round::new(targets, 2);
    assert!(!round.is_synchronized());

    // worker one claims the last queued target
    let first = round.claim().unwrap();
    assert_eq!(first.path, String::from("/b"));
    // worker two claims the remaining one
    let second = round.claim().unwrap();
    assert_eq!(second.path, String::from("/a"));
    // the queue is drained
    assert!(round.claim().is_none());

    round.contribute(vec![Flat::new(String::from("wggesucht"), City::Munich)]);
    round.worker_done();
    assert!(!round.is_synchronized());
    round.contribute(vec![
        Flat::new(String::from("wggesucht"), City::Munich),
        Flat::new(String::from("wggesucht"), City::Munich),
    ]);
    round.worker_done();
    assert!(round.is_synchronized());
    assert_eq!(round.results.len(), 3);
}
