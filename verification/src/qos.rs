//! MQTT quality-of-service levels and their native integer encoding.

use vstd::prelude::*;

verus! {

/// Delivery guarantee negotiated per publish or subscribe:
/// at-most-once, at-least-once, or exactly-once.
#[derive(Clone, Copy, Debug, PartialEq, Eq, Structural)]
pub enum QoS {
    QoS0,
    QoS1,
    QoS2,
}

/// The transport-native integer level of a QoS value.
pub open spec fn qos_level(q: QoS) -> int {
    match q {
        QoS::QoS0 => 0,
        QoS::QoS1 => 1,
        QoS::QoS2 => 2,
    }
}

impl QoS {
    /// Integer level handed to the transport for this QoS value.
    pub fn level(self) -> (r: i32)
        ensures
            r == qos_level(self),
    {
        match self {
            QoS::QoS0 => 0,
            QoS::QoS1 => 1,
            QoS::QoS2 => 2,
        }
    }

    /// The QoS value encoded by a native integer level, if there is one.
    pub fn from_level(level: i32) -> (r: Option<QoS>)
        ensures
            r is Some <==> 0 <= level <= 2,
            r matches Some(q) ==> qos_level(q) == level,
    {
        match level {
            0 => Some(QoS::QoS0),
            1 => Some(QoS::QoS1),
            2 => Some(QoS::QoS2),
            _ => None,
        }
    }
}

/// The QoS encoding is a total bijection between the three levels and the
/// integers 0, 1, 2: every level maps into that range, distinct levels map to
/// distinct integers, and each of 0, 1 and 2 is the image of a level.
pub proof fn lemma_qos_level_bijection()
    ensures
        forall|q: QoS| 0 <= #[trigger] qos_level(q) <= 2,
        forall|q1: QoS, q2: QoS| qos_level(q1) == qos_level(q2) ==> q1 == q2,
        qos_level(QoS::QoS0) == 0,
        qos_level(QoS::QoS1) == 1,
        qos_level(QoS::QoS2) == 2,
{
}

} // verus!
