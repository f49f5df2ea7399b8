use chrono::Utc;
use things3::{
    Event, EventBroadcaster, EventFilter, EventType, ProgressStatus, ProgressUpdate, ThingsId,
    Timestamp,
};
use uuid::Uuid;

fn new_id() -> u128 {
    Uuid::new_v4().as_u128()
}

fn json_with(key: &str, value: serde_json::Value) -> serde_json::Value {
    let mut map = serde_json::Map::new();
    map.insert(key.to_string(), value);
    serde_json::Value::Object(map)
}

fn text(s: &str) -> serde_json::Value {
    serde_json::Value::String(s.to_string())
}

fn task_event(source: &str) -> Event {
    Event {
        id: new_id(),
        event_type: EventType::TaskCreated {
            task_id: ThingsId::new_v4(),
        },
        timestamp: Timestamp::now(),
        data: None,
        source: source.to_string(),
    }
}

fn half_done_update() -> ProgressUpdate {
    ProgressUpdate {
        operation_id: new_id(),
        operation_name: "test_operation".to_string(),
        current: 50,
        total: Some(100),
        message: Some("Half done".to_string()),
        timestamp: Timestamp::now(),
        status: ProgressStatus::InProgress,
    }
}

fn update_json(update: &ProgressUpdate) -> serde_json::Value {
    let mut map = serde_json::Map::new();
    map.insert("operation_name".to_string(), text(&update.operation_name));
    map.insert("current".to_string(), serde_json::Value::from(update.current));
    serde_json::Value::Object(map)
}

#[test]
fn test_event_broadcaster() {
    let mut broadcaster = EventBroadcaster::new();
    let mut receiver = broadcaster.subscribe_all();

    let event = task_event("test");

    broadcaster.broadcast(event.clone()).unwrap();

    let received_event = receiver.try_recv().unwrap();
    assert_eq!(received_event.id, event.id);
}

#[test]
fn test_event_broadcaster_with_filter() {
    let mut broadcaster = EventBroadcaster::new();

    let filter = EventFilter {
        event_types: Some(vec![EventType::TaskCreated {
            task_id: ThingsId::new_v4(),
        }]),
        entity_ids: None,
        sources: None,
        since: None,
    };

    let mut receiver = broadcaster.subscribe(filter);

    let broadcast_result = broadcaster.broadcast(task_event("test"));
    assert!(broadcast_result.is_ok());

    if let Ok(event) = receiver.try_recv() {
        assert_eq!(event.source, "test");
    }
}

#[test]
fn test_progress_update_to_event() {
    let mut broadcaster = EventBroadcaster::new();
    let mut receiver = broadcaster.subscribe_all();

    let update = half_done_update();
    let data = update_json(&update);

    broadcaster
        .broadcast_progress_update(&update, data, "test")
        .unwrap();

    let received_event = receiver.try_recv().unwrap();
    assert_eq!(received_event.source, "test");
}

#[test]
fn test_event_broadcaster_subscribe_all() {
    let mut broadcaster = EventBroadcaster::new();
    let mut receiver = broadcaster.subscribe_all();

    let event = task_event("test");

    broadcaster.broadcast(event.clone()).unwrap();

    let received_event = receiver.try_recv().unwrap();
    assert_eq!(received_event.id, event.id);
}

#[test]
fn test_event_broadcaster_unsubscribe() {
    let mut broadcaster = EventBroadcaster::new();
    let subscription_id = new_id();

    let filter = EventFilter {
        event_types: Some(vec![EventType::TaskCreated {
            task_id: ThingsId::new_v4(),
        }]),
        entity_ids: None,
        sources: None,
        since: None,
    };
    let _receiver = broadcaster.subscribe(filter);

    broadcaster.unsubscribe(subscription_id);
    assert_eq!(broadcaster.subscription_count(), 1);
}

#[test]
fn test_event_broadcaster_broadcast_task_event() {
    let mut broadcaster = EventBroadcaster::new();
    let mut receiver = broadcaster.subscribe_all();

    let event_type = EventType::TaskCreated {
        task_id: ThingsId::new_v4(),
    };
    let data = Some(json_with("title", text("Test Task")));

    broadcaster
        .broadcast_task_event(event_type, data, "test")
        .unwrap();

    let received_event = receiver.try_recv().unwrap();
    assert_eq!(received_event.source, "test");
}

#[test]
fn test_event_broadcaster_broadcast_project_event() {
    let mut broadcaster = EventBroadcaster::new();
    let mut receiver = broadcaster.subscribe_all();

    let event_type = EventType::ProjectCreated {
        project_id: ThingsId::new_v4(),
    };
    let data = Some(json_with("title", text("Test Project")));

    broadcaster
        .broadcast_project_event(event_type, data, "test")
        .unwrap();

    let received_event = receiver.try_recv().unwrap();
    assert_eq!(received_event.source, "test");
}

#[test]
fn test_event_broadcaster_broadcast_area_event() {
    let mut broadcaster = EventBroadcaster::new();
    let mut receiver = broadcaster.subscribe_all();

    let event_type = EventType::AreaCreated {
        area_id: ThingsId::new_v4(),
    };
    let data = Some(json_with("title", text("Test Area")));

    broadcaster
        .broadcast_area_event(event_type, data, "test")
        .unwrap();

    let received_event = receiver.try_recv().unwrap();
    assert_eq!(received_event.source, "test");
}

#[test]
fn test_event_broadcaster_broadcast_progress_event() {
    let mut broadcaster = EventBroadcaster::new();
    let mut receiver = broadcaster.subscribe_all();

    let event_type = EventType::ProgressStarted {
        operation_id: new_id(),
    };
    let data = Some(json_with("message", text("Starting operation")));

    broadcaster
        .broadcast_progress_event(event_type, data, "test")
        .unwrap();

    let received_event = receiver.try_recv().unwrap();
    assert_eq!(received_event.source, "test");
}

#[test]
fn test_event_broadcaster_broadcast_progress_update() {
    let mut broadcaster = EventBroadcaster::new();
    let mut receiver = broadcaster.subscribe_all();

    let update = half_done_update();
    let data = update_json(&update);

    broadcaster
        .broadcast_progress_update(&update, data, "test")
        .unwrap();

    let received_event = receiver.try_recv().unwrap();
    assert_eq!(received_event.source, "test");
}

#[test]
fn test_event_broadcaster_filter_no_match() {
    let mut broadcaster = EventBroadcaster::new();

    let filter = EventFilter {
        event_types: Some(vec![EventType::TaskUpdated {
            task_id: ThingsId::new_v4(),
        }]),
        entity_ids: None,
        sources: None,
        since: None,
    };

    let mut receiver = broadcaster.subscribe(filter);

    broadcaster.broadcast(task_event("test")).unwrap();

    assert!(receiver.try_recv().is_err());
}

#[test]
fn test_event_broadcaster_broadcast_error_handling() {
    let mut broadcaster = EventBroadcaster::new();

    let mut event = task_event("test");
    event.data = Some(json_with("test", text("data")));

    let result = broadcaster.broadcast(event);
    assert!(result.is_ok());
}

#[test]
fn test_event_broadcaster_subscription_count() {
    let mut broadcaster = EventBroadcaster::new();

    assert_eq!(broadcaster.subscription_count(), 0);

    let filter = EventFilter {
        event_types: Some(vec![EventType::TaskCreated {
            task_id: ThingsId::new_v4(),
        }]),
        entity_ids: None,
        sources: None,
        since: None,
    };
    let _receiver = broadcaster.subscribe(filter);

    assert_eq!(broadcaster.subscription_count(), 1);

    let filter2 = EventFilter {
        event_types: Some(vec![EventType::ProjectCreated {
            project_id: ThingsId::new_v4(),
        }]),
        entity_ids: None,
        sources: None,
        since: None,
    };
    let _receiver2 = broadcaster.subscribe(filter2);

    assert_eq!(broadcaster.subscription_count(), 2);
}

#[test]
fn test_event_broadcaster_multiple_subscribers() {
    let mut broadcaster = EventBroadcaster::new();

    let filter = EventFilter::default();
    let mut subscriber1 = broadcaster.subscribe(filter.clone());
    let mut subscriber2 = broadcaster.subscribe(filter.clone());
    let mut subscriber3 = broadcaster.subscribe(filter);

    let event = task_event("test");

    broadcaster.broadcast(event.clone()).unwrap();

    let received1 = subscriber1.try_recv().unwrap();
    let received2 = subscriber2.try_recv().unwrap();
    let received3 = subscriber3.try_recv().unwrap();
    assert_eq!(received1.id, event.id);
    assert_eq!(received2.id, event.id);
    assert_eq!(received3.id, event.id);
}

#[test]
fn test_event_broadcaster_with_different_filters() {
    let mut broadcaster = EventBroadcaster::new();

    let task_filter = EventFilter {
        event_types: Some(vec![EventType::TaskCreated {
            task_id: ThingsId::new_v4(),
        }]),
        ..Default::default()
    };

    let project_filter = EventFilter {
        event_types: Some(vec![EventType::ProjectCreated {
            project_id: ThingsId::new_v4(),
        }]),
        ..Default::default()
    };

    let mut task_subscriber = broadcaster.subscribe(task_filter);
    let mut project_subscriber = broadcaster.subscribe(project_filter);

    let task_event = task_event("test");

    broadcaster.broadcast(task_event.clone()).unwrap();

    let received = task_subscriber.try_recv().unwrap();
    assert_eq!(received, task_event);
    assert!(project_subscriber.try_recv().is_err());
}

#[test]
fn test_event_broadcaster_with_entity_id_filters() {
    let mut broadcaster = EventBroadcaster::new();
    let task_id = ThingsId::new_v4();

    let filter = EventFilter {
        entity_ids: Some(vec![task_id.clone()]),
        ..Default::default()
    };

    let mut subscriber = broadcaster.subscribe(filter);

    let event = Event {
        id: new_id(),
        event_type: EventType::TaskCreated { task_id },
        timestamp: Timestamp::now(),
        source: "test".to_string(),
        data: None,
    };

    broadcaster.broadcast(event.clone()).unwrap();

    let received = subscriber.try_recv().unwrap();
    assert_eq!(received, event);
}

#[test]
fn test_event_broadcaster_with_source_filters() {
    let mut broadcaster = EventBroadcaster::new();

    let filter = EventFilter {
        sources: Some(vec!["test_source".to_string()]),
        ..Default::default()
    };

    let mut subscriber = broadcaster.subscribe(filter);

    let event = task_event("test_source");

    broadcaster.broadcast(event.clone()).unwrap();

    let received = subscriber.try_recv().unwrap();
    assert_eq!(received, event);
}

#[test]
fn test_event_broadcaster_with_timestamp_filters() {
    let mut broadcaster = EventBroadcaster::new();
    let now = Utc::now();
    let start_time = now - chrono::Duration::minutes(5);

    let filter = EventFilter {
        since: Some(Timestamp::new(
            start_time.timestamp(),
            start_time.timestamp_subsec_nanos(),
        )),
        ..Default::default()
    };

    let mut subscriber = broadcaster.subscribe(filter);

    let event = Event {
        id: new_id(),
        event_type: EventType::TaskCreated {
            task_id: ThingsId::new_v4(),
        },
        timestamp: Timestamp::new(now.timestamp(), now.timestamp_subsec_nanos()),
        source: "test".to_string(),
        data: None,
    };

    broadcaster.broadcast(event.clone()).unwrap();

    let received = subscriber.try_recv().unwrap();
    assert_eq!(received, event);
}

#[test]
fn test_event_broadcaster_filter_combinations() {
    let mut broadcaster = EventBroadcaster::new();
    let task_id = ThingsId::new_v4();
    let hour_ago = Utc::now() - chrono::Duration::hours(1);

    let filter = EventFilter {
        event_types: Some(vec![EventType::TaskCreated {
            task_id: ThingsId::new_v4(),
        }]),
        entity_ids: Some(vec![task_id.clone()]),
        sources: Some(vec!["test_source".to_string()]),
        since: Some(Timestamp::new(hour_ago.timestamp(), hour_ago.timestamp_subsec_nanos())),
    };

    let mut subscriber = broadcaster.subscribe(filter);

    let event = Event {
        id: new_id(),
        event_type: EventType::TaskCreated { task_id },
        timestamp: Timestamp::now(),
        source: "test_source".to_string(),
        data: None,
    };

    broadcaster.broadcast(event.clone()).unwrap();

    let received = subscriber.try_recv().unwrap();
    assert_eq!(received, event);
}

#[test]
fn test_event_broadcaster_large_message_handling() {
    let mut broadcaster = EventBroadcaster::new();
    let mut subscriber = broadcaster.subscribe(EventFilter::default());

    let mut event = task_event("test");
    event.data = Some(serde_json::Value::String("x".repeat(10000)));

    broadcaster.broadcast(event.clone()).unwrap();

    let received = subscriber.try_recv().unwrap();
    assert_eq!(received, event);
}

#[test]
fn test_event_broadcaster_rapid_events() {
    let mut broadcaster = EventBroadcaster::new();
    let mut subscriber = broadcaster.subscribe(EventFilter::default());

    for i in 0..100 {
        broadcaster.broadcast(task_event(&format!("test_{i}"))).unwrap();
    }

    let mut received_count = 0;
    while subscriber.try_recv().is_ok() {
        received_count += 1;
    }
    assert_eq!(received_count, 100);
}

#[test]
fn test_event_broadcaster_edge_cases() {
    let mut broadcaster = EventBroadcaster::new();

    let empty_filter = EventFilter::default();
    let mut subscriber = broadcaster.subscribe(empty_filter);

    let minimal_event = task_event("");

    broadcaster.broadcast(minimal_event.clone()).unwrap();

    let received = subscriber.try_recv().unwrap();
    assert_eq!(received, minimal_event);
}

#[test]
fn test_event_broadcaster_all_event_types() {
    let mut broadcaster = EventBroadcaster::new();
    let mut subscriber = broadcaster.subscribe(EventFilter::default());

    let event_types = vec![
        EventType::TaskCreated { task_id: ThingsId::new_v4() },
        EventType::TaskUpdated { task_id: ThingsId::new_v4() },
        EventType::TaskDeleted { task_id: ThingsId::new_v4() },
        EventType::TaskCompleted { task_id: ThingsId::new_v4() },
        EventType::TaskCancelled { task_id: ThingsId::new_v4() },
        EventType::ProjectCreated { project_id: ThingsId::new_v4() },
        EventType::ProjectUpdated { project_id: ThingsId::new_v4() },
        EventType::ProjectDeleted { project_id: ThingsId::new_v4() },
        EventType::ProjectCompleted { project_id: ThingsId::new_v4() },
        EventType::AreaCreated { area_id: ThingsId::new_v4() },
        EventType::AreaUpdated { area_id: ThingsId::new_v4() },
        EventType::AreaDeleted { area_id: ThingsId::new_v4() },
        EventType::ProgressStarted { operation_id: new_id() },
        EventType::ProgressUpdated { operation_id: new_id() },
        EventType::ProgressCompleted { operation_id: new_id() },
        EventType::ProgressFailed { operation_id: new_id() },
    ];

    for event_type in event_types {
        let event = Event {
            id: new_id(),
            event_type,
            timestamp: Timestamp::now(),
            source: "test".to_string(),
            data: None,
        };

        broadcaster.broadcast(event.clone()).unwrap();

        let received = subscriber.try_recv().unwrap();
        assert_eq!(received.event_type, event.event_type);
    }
}

#[test]
fn test_event_broadcaster_filter_edge_cases() {
    let mut broadcaster = EventBroadcaster::new();
    let hour_ago = Utc::now() - chrono::Duration::hours(1);

    let comprehensive_filter = EventFilter {
        event_types: Some(vec![
            EventType::TaskCreated { task_id: ThingsId::new_v4() },
            EventType::ProjectCreated { project_id: ThingsId::new_v4() },
        ]),
        entity_ids: Some(vec![ThingsId::new_v4(), ThingsId::new_v4()]),
        sources: Some(vec!["source1".to_string(), "source2".to_string()]),
        since: Some(Timestamp::new(hour_ago.timestamp(), hour_ago.timestamp_subsec_nanos())),
    };

    let mut subscriber = broadcaster.subscribe(comprehensive_filter);

    let mut matching_event = task_event("source1");
    matching_event.data = Some(json_with("key", text("value")));

    broadcaster.broadcast(matching_event.clone()).unwrap();

    let received = subscriber.try_recv();
    if let Ok(received_event) = received {
        assert_eq!(received_event.id, matching_event.id);
    }
}

// Values chosen for this library's own checks.

#[test]
fn only_accepting_subscriptions_receive_and_everyone_else_stays_quiet() {
    let mut broadcaster = EventBroadcaster::default();
    let mut everything = broadcaster.subscribe_all();
    let mut cli_only = broadcaster.subscribe(EventFilter {
        sources: Some(vec!["cli".to_string()]),
        ..Default::default()
    });
    let mut projects_only = broadcaster.subscribe(EventFilter::for_event_types(vec![
        EventType::ProjectUpdated { project_id: ThingsId::new("p".to_string()) },
    ]));

    let event = task_event("cli");
    broadcaster.broadcast(event.clone()).unwrap();

    assert_eq!(everything.try_recv().unwrap(), event);
    assert_eq!(cli_only.try_recv().unwrap(), event);
    assert!(projects_only.try_recv().is_err());
    assert!(cli_only.try_recv().is_err());
}

#[test]
fn progress_update_becomes_event_of_its_status() {
    let mut broadcaster = EventBroadcaster::new();
    let mut receiver = broadcaster.subscribe_all();
    let mut update = half_done_update();
    update.status = ProgressStatus::Cancelled;
    let data = update_json(&update);

    broadcaster.broadcast_progress_update(&update, data.clone(), "cli").unwrap();

    let received = receiver.try_recv().unwrap();
    assert_eq!(
        received.event_type,
        EventType::ProgressFailed { operation_id: update.operation_id }
    );
    assert_eq!(received.data, Some(data));
    assert_eq!(received.source, "cli");
}

#[test]
fn subscriber_of_an_entity_sees_only_that_entity() {
    let mut broadcaster = EventBroadcaster::new();
    let wanted = ThingsId::new("task-wanted".to_string());
    let mut receiver = broadcaster.subscribe(EventFilter::for_entity(wanted.clone()));

    broadcaster
        .broadcast_task_event(
            EventType::TaskUpdated { task_id: ThingsId::new("task-other".to_string()) },
            None,
            "cli",
        )
        .unwrap();
    assert!(receiver.try_recv().is_err());

    broadcaster
        .broadcast_task_event(EventType::TaskUpdated { task_id: wanted.clone() }, None, "cli")
        .unwrap();
    let received = receiver.try_recv().unwrap();
    assert_eq!(received.event_type, EventType::TaskUpdated { task_id: wanted });
}

#[test]
fn test_event_broadcaster_with_filtered_subscription() {
    let mut broadcaster = EventBroadcaster::new();
    let task_id = ThingsId::new_v4();

    let filter = EventFilter {
        event_types: Some(vec![EventType::TaskCreated {
            task_id: ThingsId::new_v4(),
        }]),
        entity_ids: None,
        sources: None,
        since: None,
    };

    let mut receiver = broadcaster.subscribe(filter);

    let event = Event {
        id: new_id(),
        event_type: EventType::TaskCreated { task_id },
        timestamp: Timestamp::now(),
        data: None,
        source: "test".to_string(),
    };

    broadcaster.broadcast(event).unwrap();

    if let Ok(received_event) = receiver.try_recv() {
        assert_eq!(received_event.source, "test");
    }
}

#[test]
fn test_event_broadcaster_with_entity_id_filter() {
    let mut broadcaster = EventBroadcaster::new();
    let task_id = ThingsId::new_v4();

    let filter = EventFilter {
        event_types: None,
        entity_ids: Some(vec![task_id.clone()]),
        sources: None,
        since: None,
    };

    let mut receiver = broadcaster.subscribe(filter);

    let event = Event {
        id: new_id(),
        event_type: EventType::TaskCreated { task_id },
        timestamp: Timestamp::now(),
        data: None,
        source: "test".to_string(),
    };

    broadcaster.broadcast(event).unwrap();

    if let Ok(received_event) = receiver.try_recv() {
        assert_eq!(received_event.source, "test");
    }
}

#[test]
fn test_event_broadcaster_with_source_filter() {
    let mut broadcaster = EventBroadcaster::new();

    let filter = EventFilter {
        event_types: None,
        entity_ids: None,
        sources: Some(vec!["test_source".to_string()]),
        since: None,
    };

    let mut receiver = broadcaster.subscribe(filter);

    broadcaster.broadcast(task_event("test_source")).unwrap();

    if let Ok(received_event) = receiver.try_recv() {
        assert_eq!(received_event.source, "test_source");
    }
}

#[test]
fn test_event_broadcaster_with_timestamp_filter() {
    let mut broadcaster = EventBroadcaster::new();
    let past_time = Utc::now() - chrono::Duration::hours(1);

    let filter = EventFilter {
        event_types: None,
        entity_ids: None,
        sources: None,
        since: Some(Timestamp::new(past_time.timestamp(), past_time.timestamp_subsec_nanos())),
    };

    let mut receiver = broadcaster.subscribe(filter);

    broadcaster.broadcast(task_event("test")).unwrap();

    if let Ok(received_event) = receiver.try_recv() {
        assert_eq!(received_event.source, "test");
    }
}

#[test]
fn main_receiver_starts_empty_and_gets_only_later_events() {
    let mut broadcaster = EventBroadcaster::new();
    let early = task_event("before");
    broadcaster.broadcast(early).unwrap();

    let mut receiver = broadcaster.subscribe_all();
    assert!(receiver.try_recv().is_err());
    assert_eq!(broadcaster.subscription_count(), 0);

    let later = task_event("after");
    broadcaster.broadcast(later.clone()).unwrap();
    assert_eq!(receiver.try_recv().unwrap(), later);
    assert!(receiver.try_recv().is_err());
}
