//! The endpoint descriptor and the list it is loaded in.

use vstd::prelude::*;

verus! {

/// Connection and authentication parameters of one MQ REST target.
#[derive(Debug)]
pub struct MQEndpoint {
    pub host: String,
    pub port: String,
    pub csrftoken: String,
    pub qmgr: String,
    pub queue_name: String,
    pub app_user: String,
    pub app_password: String,
}

/// The text of each field of an [`MQEndpoint`].
pub struct EndpointView {
    pub host: Seq<char>,
    pub port: Seq<char>,
    pub csrftoken: Seq<char>,
    pub qmgr: Seq<char>,
    pub queue_name: Seq<char>,
    pub app_user: Seq<char>,
    pub app_password: Seq<char>,
}

impl View for MQEndpoint {
    type V = EndpointView;

    open spec fn view(&self) -> EndpointView {
        EndpointView {
            host: self.host@,
            port: self.port@,
            csrftoken: self.csrftoken@,
            qmgr: self.qmgr@,
            queue_name: self.queue_name@,
            app_user: self.app_user@,
            app_password: self.app_password@,
        }
    }
}

impl Clone for MQEndpoint {
    fn clone(&self) -> (copy: MQEndpoint)
        ensures
            copy@ == self@,
    {
        MQEndpoint {
            host: self.host.clone(),
            port: self.port.clone(),
            csrftoken: self.csrftoken.clone(),
            qmgr: self.qmgr.clone(),
            queue_name: self.queue_name.clone(),
            app_user: self.app_user.clone(),
            app_password: self.app_password.clone(),
        }
    }
}

/// The endpoints of a configuration. Only the first one is ever used.
#[derive(Debug)]
pub struct ListMQEndpoint {
    pub list_of_mq_endpoints: Vec<MQEndpoint>,
}

impl View for ListMQEndpoint {
    type V = Seq<EndpointView>;

    open spec fn view(&self) -> Seq<EndpointView> {
        Seq::new(self.list_of_mq_endpoints@.len(), |i: int| self.list_of_mq_endpoints@[i]@)
    }
}

impl Clone for ListMQEndpoint {
    fn clone(&self) -> (copy: ListMQEndpoint)
        ensures
            copy@ == self@,
    {
        let mut list: Vec<MQEndpoint> = Vec::new();
        let mut i: usize = 0;
        while i < self.list_of_mq_endpoints.len()
            invariant
                i <= self.list_of_mq_endpoints@.len(),
                list@.len() == i,
                forall|k: int| 0 <= k < i ==> (#[trigger] list@[k])@ == self.list_of_mq_endpoints@[k]@,
            decreases self.list_of_mq_endpoints@.len() - i,
        {
            list.push(self.list_of_mq_endpoints[i].clone());
            i += 1;
        }
        let copy = ListMQEndpoint { list_of_mq_endpoints: list };
        assert(copy@ =~= self@);
        copy
    }
}

impl ListMQEndpoint {
    /// There is a first endpoint to work with.
    pub open spec fn has_endpoint(&self) -> bool {
        self@.len() > 0
    }

    /// The endpoint that every request is built from.
    pub open spec fn endpoint(&self) -> EndpointView
        recommends
            self.has_endpoint(),
    {
        self@[0]
    }

    /// The first endpoint, if the list holds one.
    pub fn first(&self) -> (found: Option<&MQEndpoint>)
        ensures
            found is Some <==> self.has_endpoint(),
            found is Some ==> found->0@ == self.endpoint(),
    {
        if self.list_of_mq_endpoints.len() > 0 {
            Some(&self.list_of_mq_endpoints[0])
        } else {
            None
        }
    }
}

} // verus!
