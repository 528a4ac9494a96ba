use std::sync::atomic::{AtomicU64, Ordering};
use std::sync::Arc;

use tokio::sync::Mutex;

use goeie::challenge::ChallengeRound;
use goeie::config::{get_config, get_host_config, ConfigStore, CONFIG_TTL_MS};
use goeie::models::{Config, RedirectConfiguration};

fn snapshot(mark: &str, target: &str) -> Config {
    Config {
        redirect: vec![RedirectConfiguration {
            hosts: vec!["h.example.com".to_string(), mark.to_string()],
            target: target.to_string(),
            redirect_type: None,
            path: None,
        }],
        ports: None,
        tls: None,
    }
}

#[test]
fn concurrent_lookups_during_reloads_see_whole_snapshots_only() {
    let rt = tokio::runtime::Builder::new_multi_thread()
        .worker_threads(4)
        .enable_all()
        .build()
        .unwrap();
    rt.block_on(async {
        let store = Arc::new(Mutex::new(ConfigStore::new()));
        let clock = Arc::new(AtomicU64::new(0));
        {
            let mut guard = store.lock().await;
            get_config(&mut guard, 0, Some(Ok(snapshot("mark-a", "https://a.invalid"))))
                .unwrap();
        }

        let mut handles = Vec::new();
        for task in 0..16u64 {
            let store = Arc::clone(&store);
            let clock = Arc::clone(&clock);
            handles.push(tokio::spawn(async move {
                for _ in 0..40 {
                    // Every few reads the clock jumps past the TTL, so
                    // reloads (alternating between the two snapshots)
                    // interleave freely with plain reads.
                    let now = clock.fetch_add(CONFIG_TTL_MS / 8, Ordering::SeqCst);
                    let mut guard = store.lock().await;
                    let fresh = if guard.needs_reload(now) {
                        if (now / CONFIG_TTL_MS) % 2 == 0 {
                            Some(Ok(snapshot("mark-a", "https://a.invalid")))
                        } else {
                            Some(Ok(snapshot("mark-b", "https://b.invalid")))
                        }
                    } else {
                        None
                    };
                    let rule =
                        get_host_config(&mut guard, &"h.example.com".to_string(), now, fresh)
                            .unwrap();
                    drop(guard);
                    // A torn snapshot would pair one snapshot's target
                    // with the other's host list; every observed rule
                    // must be one of the two snapshots whole.
                    match rule.target.as_str() {
                        "https://a.invalid" => assert_eq!(rule.hosts[1], "mark-a"),
                        "https://b.invalid" => assert_eq!(rule.hosts[1], "mark-b"),
                        other => panic!("unknown target {other}"),
                    }
                    assert_eq!(rule.hosts[0], "h.example.com");
                    let _ = task;
                }
            }));
        }
        for h in handles {
            h.await.unwrap();
        }
    });
}

#[test]
fn concurrent_challenge_hits_fire_exactly_one_signal() {
    let rt = tokio::runtime::Builder::new_multi_thread()
        .worker_threads(4)
        .enable_all()
        .build()
        .unwrap();
    rt.block_on(async {
        let round = Arc::new(Mutex::new(ChallengeRound::new("proof-content".to_string())));
        let mut handles = Vec::new();
        for _ in 0..64 {
            let round = Arc::clone(&round);
            handles.push(tokio::spawn(async move {
                let (body, signal) = round.lock().await.respond();
                assert_eq!(body, "proof-content");
                signal
            }));
        }
        let mut signals = 0;
        for h in handles {
            if h.await.unwrap() {
                signals += 1;
            }
        }
        assert_eq!(signals, 1);
    });
}
