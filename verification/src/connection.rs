//! Event Hub connection settings and the slot that holds a connected client.

use vstd::prelude::*;

verus! {

/// Where one Event Hub is reached: namespace, hub name and consumer group.
#[derive(Clone, Debug)]
pub struct EventHubConfig {
    pub fully_qualified_namespace: String,
    pub event_hub_name: String,
    pub consumer_group: String,
}

/// The settings of an Event Hub connection, as plain character sequences.
pub struct EventHubConfigView {
    pub fully_qualified_namespace: Seq<char>,
    pub event_hub_name: Seq<char>,
    pub consumer_group: Seq<char>,
}

impl View for EventHubConfig {
    type V = EventHubConfigView;

    open spec fn view(&self) -> EventHubConfigView {
        EventHubConfigView {
            fully_qualified_namespace: self.fully_qualified_namespace@,
            event_hub_name: self.event_hub_name@,
            consumer_group: self.consumer_group@,
        }
    }
}

impl EventHubConfig {
    /// The settings for hub `event_hub_name` in `namespace`, read through `consumer_group`.
    pub fn for_hub(namespace: &String, event_hub_name: &String, consumer_group: &String) -> (c: Self)
        ensures
            c.fully_qualified_namespace@ == namespace@,
            c.event_hub_name@ == event_hub_name@,
            c.consumer_group@ == consumer_group@,
    {
        EventHubConfig {
            fully_qualified_namespace: namespace.clone(),
            event_hub_name: event_hub_name.clone(),
            consumer_group: consumer_group.clone(),
        }
    }

    /// One configuration per hub name, in the order of `hub_names`, all sharing the
    /// namespace and consumer group.
    pub fn for_hubs(namespace: &String, hub_names: &Vec<String>, consumer_group: &String) -> (cs: Vec<Self>)
        ensures
            cs.len() == hub_names.len(),
            forall|i: int|
                0 <= i < cs.len() ==> {
                    &&& (#[trigger] cs@[i]).fully_qualified_namespace@ == namespace@
                    &&& cs@[i].event_hub_name@ == hub_names@[i]@
                    &&& cs@[i].consumer_group@ == consumer_group@
                },
    {
        let mut cs: Vec<Self> = Vec::new();
        let mut i: usize = 0;
        while i < hub_names.len()
            invariant
                i <= hub_names.len(),
                cs.len() == i,
                forall|k: int|
                    0 <= k < i ==> {
                        &&& (#[trigger] cs@[k]).fully_qualified_namespace@ == namespace@
                        &&& cs@[k].event_hub_name@ == hub_names@[k]@
                        &&& cs@[k].consumer_group@ == consumer_group@
                    },
            decreases hub_names.len() - i,
        {
            cs.push(Self::for_hub(namespace, &hub_names[i], consumer_group));
            i = i + 1;
        }
        cs
    }
}

/// Why a connection could not hand out its client.
#[derive(Debug, PartialEq, Eq, Structural)]
pub enum ConnectionError {
    /// No client has been stored yet.
    NotConnected,
}

impl ConnectionError {
    /// The human-readable message of the error.
    pub fn message(&self) -> (m: String)
        ensures
            m@ == "Client not connected"@,
    {
        String::from_str("Client not connected")
    }
}

/// A connection to one Event Hub: its settings and, once connected, its client.
pub struct EventHubConnection<C> {
    config: EventHubConfig,
    client: Option<C>,
}

impl<C> EventHubConnection<C> {
    /// The settings this connection was made with.
    pub closed spec fn spec_config(&self) -> EventHubConfig {
        self.config
    }

    /// The client stored by the last `set_client`, if any.
    pub closed spec fn spec_client(&self) -> Option<C> {
        self.client
    }

    /// A connection that is not connected yet.
    pub fn new(config: EventHubConfig) -> (c: Self)
        ensures
            c.spec_config() == config,
            c.spec_client() is None,
    {
        EventHubConnection { config, client: None }
    }

    /// The settings of this connection.
    pub fn config(&self) -> (c: &EventHubConfig)
        ensures
            *c == self.spec_config(),
    {
        &self.config
    }

    /// Stores the client that connecting produced; the settings stay.
    pub fn set_client(&mut self, client: C)
        ensures
            final(self).spec_client() == Some(client),
            final(self).spec_config() == old(self).spec_config(),
    {
        self.client = Some(client);
    }

    /// The stored client, or `NotConnected` when none has been stored.
    pub fn get_client(&self) -> (r: Result<&C, ConnectionError>)
        ensures
            match self.spec_client() {
                Some(c) => r == Ok::<&C, ConnectionError>(&c),
                None => r == Err::<&C, ConnectionError>(ConnectionError::NotConnected),
            },
    {
        match &self.client {
            Some(c) => Ok(c),
            None => Err(ConnectionError::NotConnected),
        }
    }
}

} // verus!
