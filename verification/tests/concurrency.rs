use std::sync::Arc;

use kv_plugin::server::PluginServer;

fn runtime() -> tokio::runtime::Runtime {
    tokio::runtime::Builder::new_multi_thread()
        .worker_threads(4)
        .build()
        .unwrap()
}

#[test]
fn no_lost_updates_under_concurrent_puts() {
    let server = Arc::new(PluginServer::default());
    let rt = runtime();
    rt.block_on(async {
        let mut handles = Vec::new();
        for i in 0..100u32 {
            let s = Arc::clone(&server);
            handles.push(tokio::spawn(async move {
                let key = format!("key-{}", i);
                let value = key.clone().into_bytes();
                s.put(key, value).unwrap();
            }));
        }
        for h in handles {
            h.await.unwrap();
        }
    });
    for i in 0..100u32 {
        let key = format!("key-{}", i);
        assert_eq!(server.get(&key), Ok(key.clone().into_bytes()));
    }
}

#[test]
fn concurrent_get_sees_a_complete_value() {
    let server = Arc::new(PluginServer::default());
    let before = vec![1u8; 4096];
    let after = vec![2u8; 4096];
    server.put("k".to_string(), before.clone()).unwrap();

    let rt = runtime();
    let observed = rt.block_on(async {
        let writer = {
            let s = Arc::clone(&server);
            let after = after.clone();
            tokio::spawn(async move {
                for _ in 0..50 {
                    s.put("k".to_string(), after.clone()).unwrap();
                }
            })
        };
        let mut readers = Vec::new();
        for _ in 0..8 {
            let s = Arc::clone(&server);
            readers.push(tokio::spawn(async move {
                let mut seen = Vec::new();
                for _ in 0..50 {
                    seen.push(s.get("k").unwrap());
                }
                seen
            }));
        }
        writer.await.unwrap();
        let mut all = Vec::new();
        for r in readers {
            all.extend(r.await.unwrap());
        }
        all
    });

    for value in observed {
        assert!(value == before || value == after);
    }
}

#[test]
fn concurrent_puts_of_same_key_leave_one_of_the_values() {
    let server = Arc::new(PluginServer::default());
    let rt = runtime();
    rt.block_on(async {
        let mut handles = Vec::new();
        for i in 0..16u32 {
            let s = Arc::clone(&server);
            handles.push(tokio::spawn(async move {
                s.put("shared".to_string(), vec![i as u8; 32]).unwrap();
            }));
        }
        for h in handles {
            h.await.unwrap();
        }
    });
    let value = server.get("shared").unwrap();
    assert_eq!(value.len(), 32);
    let first = value[0];
    assert!(first < 16);
    assert!(value.iter().all(|b| *b == first));
}
