//! Configuration of the controls receiver that publishes to a ROS topic.

use vstd::prelude::*;

verus! {

/// Where the ROS controls receiver publishes: the node it runs as, the topic and
/// the publisher's queue size.
#[derive(Clone, Debug, PartialEq, Eq)]
pub struct RosControlsReceiverConfig {
    ros_node: String,
    ros_topic: String,
    queue_size: usize,
}

impl RosControlsReceiverConfig {
    pub closed spec fn spec_ros_node(&self) -> Seq<char> {
        self.ros_node@
    }

    pub closed spec fn spec_ros_topic(&self) -> Seq<char> {
        self.ros_topic@
    }

    pub closed spec fn spec_queue_size(&self) -> usize {
        self.queue_size
    }

    pub fn new(ros_node: String, ros_topic: String, queue_size: usize) -> (c: Self)
        ensures
            c.spec_ros_node() == ros_node@,
            c.spec_ros_topic() == ros_topic@,
            c.spec_queue_size() == queue_size,
    {
        RosControlsReceiverConfig { ros_node, ros_topic, queue_size }
    }

    pub fn ros_node(&self) -> (s: &String)
        ensures
            s@ == self.spec_ros_node(),
    {
        &self.ros_node
    }

    pub fn ros_topic(&self) -> (s: &String)
        ensures
            s@ == self.spec_ros_topic(),
    {
        &self.ros_topic
    }

    pub fn queue_size(&self) -> (n: usize)
        ensures
            n == self.spec_queue_size(),
    {
        self.queue_size
    }
}

} // verus!
