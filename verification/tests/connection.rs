use azure_eventhub_vector_pipeline::connection::{ConnectionError, EventHubConfig, EventHubConnection};

fn config() -> EventHubConfig {
    EventHubConfig::for_hub(
        &"ns.servicebus.windows.net".to_string(),
        &"eventhub-1".to_string(),
        &"vector-consumer".to_string(),
    )
}

#[test]
fn client_unavailable_until_connected() {
    let mut conn: EventHubConnection<u32> = EventHubConnection::new(config());
    assert_eq!(conn.get_client().err(), Some(ConnectionError::NotConnected));
    assert_eq!(ConnectionError::NotConnected.message(), "Client not connected");
    conn.set_client(7);
    assert_eq!(conn.get_client(), Ok(&7));
    assert_eq!(conn.config().event_hub_name, "eventhub-1");
}

#[test]
fn one_config_per_hub() {
    let names = vec!["eventhub-1".to_string(), "eventhub-2".to_string()];
    let cs = EventHubConfig::for_hubs(&"ns".to_string(), &names, &"group".to_string());
    assert_eq!(cs.len(), 2);
    assert_eq!(cs[1].event_hub_name, "eventhub-2");
    assert_eq!(cs[0].fully_qualified_namespace, "ns");
    assert_eq!(cs[1].consumer_group, "group");
}
