//! End-to-end latency tracking of video segments.
//!
//! A segment is stamped when the device sends it (T1), when the platform
//! receives it (T2) and forwards it (T3), and when a client plays it (T4).
//! Transmission latency is T2 - T1, processing T3 - T2, distribution
//! T4 - T3 and end-to-end T4 - T1; each is checked against its threshold.
//! Times are in microseconds since the epoch; latencies are compared with
//! the thresholds in whole milliseconds (rounded down).

use vstd::prelude::*;
use crate::statistics::LatencyStatistics;

verus! {

/// Latency thresholds sent by a client (milliseconds), each optional.
#[derive(Debug, Clone, Copy)]
pub struct LatencyConfig {
    pub transmission_threshold_ms: Option<u64>,
    pub processing_threshold_ms: Option<u64>,
    pub distribution_threshold_ms: Option<u64>,
    pub end_to_end_threshold_ms: Option<u64>,
}

/// Latency thresholds (milliseconds).
#[derive(Debug, Clone, Copy)]
pub struct LatencyThresholds {
    /// Device to platform.
    pub transmission_ms: u64,
    /// Platform receive to forward.
    pub processing_ms: u64,
    /// Platform to client.
    pub distribution_ms: u64,
    /// Device to client.
    pub end_to_end_ms: u64,
}

impl Default for LatencyThresholds {
    /// 100 ms, 50 ms, 50 ms and 200 ms.
    fn default() -> (t: Self)
        ensures
            t.transmission_ms == 100,
            t.processing_ms == 50,
            t.distribution_ms == 50,
            t.end_to_end_ms == 200,
    {
        LatencyThresholds {
            transmission_ms: 100,
            processing_ms: 50,
            distribution_ms: 50,
            end_to_end_ms: 200,
        }
    }
}

/// A latency over its threshold.
#[derive(Debug, Clone, Copy, PartialEq, Eq, Structural)]
pub enum LatencyAlertType {
    TransmissionLatency { segment_id: u128, latency_ms: u64, threshold_ms: u64 },
    ProcessingLatency { segment_id: u128, latency_ms: u64, threshold_ms: u64 },
    DistributionLatency { segment_id: u128, latency_ms: u64, threshold_ms: u64 },
    EndToEndLatency { segment_id: u128, latency_ms: u64, threshold_ms: u64 },
}

/// The latencies measured for a segment (microseconds).
#[derive(Debug, Clone, Copy)]
pub struct LatencyMeasurement {
    pub transmission_latency_us: Option<u64>,
    pub processing_latency_us: Option<u64>,
    pub distribution_latency_us: Option<u64>,
    pub end_to_end_latency_us: Option<u64>,
}

/// The latencies of a segment in milliseconds, as reported.
#[derive(Debug, Clone, Copy)]
pub struct LatencyBreakdown {
    pub transmission_latency_ms: Option<u64>,
    pub processing_latency_ms: Option<u64>,
    pub distribution_latency_ms: Option<u64>,
    pub end_to_end_latency_ms: Option<u64>,
}

/// Everything recorded for one segment.
#[derive(Debug)]
pub struct SegmentLatencyRecord {
    pub segment_id: u128,
    /// T1.
    pub device_send_us: Option<u64>,
    /// T2.
    pub platform_receive_us: Option<u64>,
    /// T3.
    pub platform_forward_us: Option<u64>,
    /// T4.
    pub client_play_us: Option<u64>,
    /// Created with the transmission latency; later latencies are added to
    /// it.
    pub measurement: Option<LatencyMeasurement>,
    /// Alerts raised for the segment, oldest first.
    pub alerts: Vec<LatencyAlertType>,
}

/// `later - earlier` when `later` is not before `earlier`.
pub open spec fn span(earlier: Option<u64>, later: u64) -> Option<u64> {
    match earlier {
        Some(e) => if later >= e {
            Some((later - e) as u64)
        } else {
            None
        },
        None => None,
    }
}

/// Whole milliseconds of a latency in microseconds.
pub open spec fn ms_of(us: u64) -> u64 {
    (us / 1000) as u64
}

/// `alerts` with an alert appended when `latency_us`, in whole
/// milliseconds, is over `threshold_ms`.
pub open spec fn check(
    alerts: Seq<LatencyAlertType>,
    alert: LatencyAlertType,
    latency_us: u64,
    threshold_ms: u64,
) -> Seq<LatencyAlertType> {
    if ms_of(latency_us) > threshold_ms {
        alerts.push(alert)
    } else {
        alerts
    }
}

/// Sets a latency of the measurement, if there is one.
pub open spec fn with_processing(m: Option<LatencyMeasurement>, v: u64) -> Option<LatencyMeasurement> {
    match m {
        Some(x) => Some(LatencyMeasurement { processing_latency_us: Some(v), ..x }),
        None => None,
    }
}

pub open spec fn with_distribution(m: Option<LatencyMeasurement>, v: u64) -> Option<
    LatencyMeasurement,
> {
    match m {
        Some(x) => Some(LatencyMeasurement { distribution_latency_us: Some(v), ..x }),
        None => None,
    }
}

pub open spec fn with_end_to_end(m: Option<LatencyMeasurement>, v: u64) -> Option<LatencyMeasurement> {
    match m {
        Some(x) => Some(LatencyMeasurement { end_to_end_latency_us: Some(v), ..x }),
        None => None,
    }
}

/// The measurement after a transmission latency: created if missing.
pub open spec fn with_transmission(m: Option<LatencyMeasurement>, v: u64) -> LatencyMeasurement {
    match m {
        Some(x) => LatencyMeasurement { transmission_latency_us: Some(v), ..x },
        None => LatencyMeasurement {
            transmission_latency_us: Some(v),
            processing_latency_us: None,
            distribution_latency_us: None,
            end_to_end_latency_us: None,
        },
    }
}

fn push_if_over(alerts: &mut Vec<LatencyAlertType>, alert: LatencyAlertType, latency_us: u64, threshold_ms: u64)
    ensures
        final(alerts)@ == check(old(alerts)@, alert, latency_us, threshold_ms),
{
    if latency_us / 1000 > threshold_ms {
        alerts.push(alert);
    }
}

fn opt_ms(v: Option<u64>) -> (r: Option<u64>)
    ensures
        r == match v {
            Some(x) => Some(ms_of(x)),
            None => None::<u64>,
        },
{
    match v {
        Some(x) => Some(x / 1000),
        None => None,
    }
}

impl SegmentLatencyRecord {
    /// A segment with nothing recorded.
    pub fn new(segment_id: u128) -> (r: Self)
        ensures
            r.segment_id == segment_id,
            r.device_send_us.is_none(),
            r.platform_receive_us.is_none(),
            r.platform_forward_us.is_none(),
            r.client_play_us.is_none(),
            r.measurement.is_none(),
            r.alerts@.len() == 0,
    {
        SegmentLatencyRecord {
            segment_id,
            device_send_us: None,
            platform_receive_us: None,
            platform_forward_us: None,
            client_play_us: None,
            measurement: None,
            alerts: Vec::new(),
        }
    }

    /// Records T1.
    pub fn record_device_send(&mut self, timestamp_us: u64)
        ensures
            final(self).device_send_us == Some(timestamp_us),
            final(self).segment_id == old(self).segment_id,
            final(self).platform_receive_us == old(self).platform_receive_us,
            final(self).platform_forward_us == old(self).platform_forward_us,
            final(self).client_play_us == old(self).client_play_us,
            final(self).measurement == old(self).measurement,
            final(self).alerts@ == old(self).alerts@,
    {
        self.device_send_us = Some(timestamp_us);
    }

    /// Records T2; with T1 known and not later, the transmission latency
    /// is measured and checked.
    pub fn record_platform_receive(&mut self, timestamp_us: u64, thresholds: &LatencyThresholds)
        ensures
            final(self).platform_receive_us == Some(timestamp_us),
            final(self).segment_id == old(self).segment_id,
            final(self).device_send_us == old(self).device_send_us,
            final(self).platform_forward_us == old(self).platform_forward_us,
            final(self).client_play_us == old(self).client_play_us,
            match span(old(self).device_send_us, timestamp_us) {
                Some(lat) => {
                    &&& final(self).measurement == Some(with_transmission(old(self).measurement, lat))
                    &&& final(self).alerts@ == check(
                        old(self).alerts@,
                        LatencyAlertType::TransmissionLatency {
                            segment_id: old(self).segment_id,
                            latency_ms: ms_of(lat),
                            threshold_ms: thresholds.transmission_ms,
                        },
                        lat,
                        thresholds.transmission_ms,
                    )
                },
                None => {
                    &&& final(self).measurement == old(self).measurement
                    &&& final(self).alerts@ == old(self).alerts@
                },
            },
    {
        self.platform_receive_us = Some(timestamp_us);
        if let Some(device_time) = self.device_send_us {
            if timestamp_us >= device_time {
                let lat = timestamp_us - device_time;
                let m = match self.measurement {
                    Some(x) => LatencyMeasurement { transmission_latency_us: Some(lat), ..x },
                    None => LatencyMeasurement {
                        transmission_latency_us: Some(lat),
                        processing_latency_us: None,
                        distribution_latency_us: None,
                        end_to_end_latency_us: None,
                    },
                };
                self.measurement = Some(m);
                let alert = LatencyAlertType::TransmissionLatency {
                    segment_id: self.segment_id,
                    latency_ms: lat / 1000,
                    threshold_ms: thresholds.transmission_ms,
                };
                push_if_over(&mut self.alerts, alert, lat, thresholds.transmission_ms);
            }
        }
    }

    /// Records T3; with T2 known and not later, the processing latency is
    /// measured (kept only when a measurement exists) and checked.
    pub fn record_platform_forward(&mut self, timestamp_us: u64, thresholds: &LatencyThresholds)
        ensures
            final(self).platform_forward_us == Some(timestamp_us),
            final(self).segment_id == old(self).segment_id,
            final(self).device_send_us == old(self).device_send_us,
            final(self).platform_receive_us == old(self).platform_receive_us,
            final(self).client_play_us == old(self).client_play_us,
            match span(old(self).platform_receive_us, timestamp_us) {
                Some(lat) => {
                    &&& final(self).measurement == with_processing(old(self).measurement, lat)
                    &&& final(self).alerts@ == check(
                        old(self).alerts@,
                        LatencyAlertType::ProcessingLatency {
                            segment_id: old(self).segment_id,
                            latency_ms: ms_of(lat),
                            threshold_ms: thresholds.processing_ms,
                        },
                        lat,
                        thresholds.processing_ms,
                    )
                },
                None => {
                    &&& final(self).measurement == old(self).measurement
                    &&& final(self).alerts@ == old(self).alerts@
                },
            },
    {
        self.platform_forward_us = Some(timestamp_us);
        if let Some(receive_time) = self.platform_receive_us {
            if timestamp_us >= receive_time {
                let lat = timestamp_us - receive_time;
                if let Some(x) = self.measurement {
                    self.measurement = Some(LatencyMeasurement { processing_latency_us: Some(lat), ..x });
                }
                let alert = LatencyAlertType::ProcessingLatency {
                    segment_id: self.segment_id,
                    latency_ms: lat / 1000,
                    threshold_ms: thresholds.processing_ms,
                };
                push_if_over(&mut self.alerts, alert, lat, thresholds.processing_ms);
            }
        }
    }

    /// Records T4; with T3 known and not later the distribution latency,
    /// and with T1 known and not later the end-to-end latency, are measured
    /// (kept only when a measurement exists) and checked, in that order.
    pub fn record_client_play(&mut self, timestamp_us: u64, thresholds: &LatencyThresholds)
        ensures
            final(self).client_play_us == Some(timestamp_us),
            final(self).segment_id == old(self).segment_id,
            final(self).device_send_us == old(self).device_send_us,
            final(self).platform_receive_us == old(self).platform_receive_us,
            final(self).platform_forward_us == old(self).platform_forward_us,
            ({
                let m1 = match span(old(self).platform_forward_us, timestamp_us) {
                    Some(lat) => with_distribution(old(self).measurement, lat),
                    None => old(self).measurement,
                };
                let a1 = match span(old(self).platform_forward_us, timestamp_us) {
                    Some(lat) => check(
                        old(self).alerts@,
                        LatencyAlertType::DistributionLatency {
                            segment_id: old(self).segment_id,
                            latency_ms: ms_of(lat),
                            threshold_ms: thresholds.distribution_ms,
                        },
                        lat,
                        thresholds.distribution_ms,
                    ),
                    None => old(self).alerts@,
                };
                &&& final(self).measurement == match span(old(self).device_send_us, timestamp_us) {
                    Some(lat) => with_end_to_end(m1, lat),
                    None => m1,
                }
                &&& final(self).alerts@ == match span(old(self).device_send_us, timestamp_us) {
                    Some(lat) => check(
                        a1,
                        LatencyAlertType::EndToEndLatency {
                            segment_id: old(self).segment_id,
                            latency_ms: ms_of(lat),
                            threshold_ms: thresholds.end_to_end_ms,
                        },
                        lat,
                        thresholds.end_to_end_ms,
                    ),
                    None => a1,
                }
            }),
    {
        self.client_play_us = Some(timestamp_us);
        if let Some(forward_time) = self.platform_forward_us {
            if timestamp_us >= forward_time {
                let lat = timestamp_us - forward_time;
                if let Some(x) = self.measurement {
                    self.measurement = Some(LatencyMeasurement { distribution_latency_us: Some(lat), ..x });
                }
                let alert = LatencyAlertType::DistributionLatency {
                    segment_id: self.segment_id,
                    latency_ms: lat / 1000,
                    threshold_ms: thresholds.distribution_ms,
                };
                push_if_over(&mut self.alerts, alert, lat, thresholds.distribution_ms);
            }
        }
        if let Some(device_time) = self.device_send_us {
            if timestamp_us >= device_time {
                let lat = timestamp_us - device_time;
                if let Some(x) = self.measurement {
                    self.measurement = Some(LatencyMeasurement { end_to_end_latency_us: Some(lat), ..x });
                }
                let alert = LatencyAlertType::EndToEndLatency {
                    segment_id: self.segment_id,
                    latency_ms: lat / 1000,
                    threshold_ms: thresholds.end_to_end_ms,
                };
                push_if_over(&mut self.alerts, alert, lat, thresholds.end_to_end_ms);
            }
        }
    }

    /// The measured latencies in milliseconds, if a measurement exists.
    pub fn get_measurement(&self) -> (r: Option<LatencyBreakdown>)
        ensures
            match self.measurement {
                None => r.is_none(),
                Some(m) => r matches Some(b) && b.transmission_latency_ms == match m.transmission_latency_us {
                    Some(x) => Some(ms_of(x)),
                    None => None::<u64>,
                } && b.processing_latency_ms == match m.processing_latency_us {
                    Some(x) => Some(ms_of(x)),
                    None => None::<u64>,
                } && b.distribution_latency_ms == match m.distribution_latency_us {
                    Some(x) => Some(ms_of(x)),
                    None => None::<u64>,
                } && b.end_to_end_latency_ms == match m.end_to_end_latency_us {
                    Some(x) => Some(ms_of(x)),
                    None => None::<u64>,
                },
            },
    {
        match self.measurement {
            None => None,
            Some(m) => Some(
                LatencyBreakdown {
                    transmission_latency_ms: opt_ms(m.transmission_latency_us),
                    processing_latency_ms: opt_ms(m.processing_latency_us),
                    distribution_latency_ms: opt_ms(m.distribution_latency_us),
                    end_to_end_latency_ms: opt_ms(m.end_to_end_latency_us),
                },
            ),
        }
    }

    /// The alerts of the segment; none before the first alert.
    pub fn get_alerts(&self) -> (r: Option<Vec<LatencyAlertType>>)
        ensures
            self.alerts@.len() == 0 ==> r.is_none(),
            self.alerts@.len() > 0 ==> (r matches Some(v) && v@ == self.alerts@),
    {
        if self.alerts.len() == 0 {
            return None;
        }
        let mut out: Vec<LatencyAlertType> = Vec::new();
        let mut i: usize = 0;
        while i < self.alerts.len()
            invariant
                i <= self.alerts@.len(),
                out@ == self.alerts@.take(i as int),
            decreases self.alerts@.len() - i,
        {
            out.push(self.alerts[i]);
            proof {
                assert(out@ =~= self.alerts@.take(i + 1));
            }
            i = i + 1;
        }
        proof {
            assert(out@ =~= self.alerts@);
        }
        Some(out)
    }

    /// Forgets the segment's alerts.
    pub fn clear_alerts(&mut self)
        ensures
            final(self).alerts@.len() == 0,
            final(self).segment_id == old(self).segment_id,
            final(self).measurement == old(self).measurement,
    {
        self.alerts.clear();
    }
}

/// Law: once T1 through T4 are recorded in order with non-decreasing
/// times, all four latencies are measured and the end-to-end latency is
/// the sum of the other three.
pub proof fn lemma_complete_chain(t1: u64, t2: u64, t3: u64, t4: u64, m0: Option<LatencyMeasurement>)
    requires
        t1 <= t2 <= t3 <= t4,
    ensures
        ({
            let m1 = with_transmission(m0, (t2 - t1) as u64);
            let m2 = with_processing(Some(m1), (t3 - t2) as u64);
            let m3 = with_distribution(m2, (t4 - t3) as u64);
            let m4 = with_end_to_end(m3, (t4 - t1) as u64);
            &&& span(Some(t1), t2) == Some((t2 - t1) as u64)
            &&& span(Some(t2), t3) == Some((t3 - t2) as u64)
            &&& span(Some(t3), t4) == Some((t4 - t3) as u64)
            &&& span(Some(t1), t4) == Some((t4 - t1) as u64)
            &&& m4 matches Some(m) && m.transmission_latency_us == Some((t2 - t1) as u64)
                && m.processing_latency_us == Some((t3 - t2) as u64)
                && m.distribution_latency_us == Some((t4 - t3) as u64)
                && m.end_to_end_latency_us == Some((t4 - t1) as u64)
                && m.end_to_end_latency_us.unwrap() == m.transmission_latency_us.unwrap()
                + m.processing_latency_us.unwrap() + m.distribution_latency_us.unwrap()
        }),
{
}

/// Law: an alert is raised exactly when the latency, in whole
/// milliseconds, is over its threshold.
pub proof fn lemma_alert_iff_over_threshold(
    alerts: Seq<LatencyAlertType>,
    alert: LatencyAlertType,
    latency_us: u64,
    threshold_ms: u64,
)
    ensures
        check(alerts, alert, latency_us, threshold_ms).len() == alerts.len() + 1 <==> latency_us
            / 1000 > threshold_ms,
        check(alerts, alert, latency_us, threshold_ms).len() == alerts.len() + 1 ==> check(
            alerts,
            alert,
            latency_us,
            threshold_ms,
        ).last() == alert,
{
}

/// Running latency figures of a session.
#[derive(Debug, Clone, Copy)]
pub struct SessionLatency {
    pub session_id: u128,
    /// When monitoring started (microseconds).
    pub start_time_us: u64,
    pub segment_count: u64,
    pub total_latency_ms: u64,
    /// `u64::MAX` until the first latency.
    pub min_latency_ms: u64,
    pub max_latency_ms: u64,
}

impl SessionLatency {
    /// Monitoring of a session started at `now_us`.
    pub fn start(session_id: u128, now_us: u64) -> (m: Self)
        ensures
            m.session_id == session_id,
            m.start_time_us == now_us,
            m.segment_count == 0,
            m.total_latency_ms == 0,
            m.min_latency_ms == u64::MAX,
            m.max_latency_ms == 0,
    {
        SessionLatency {
            session_id,
            start_time_us: now_us,
            segment_count: 0,
            total_latency_ms: 0,
            min_latency_ms: u64::MAX,
            max_latency_ms: 0,
        }
    }

    /// Adds a latency, in whole milliseconds, to the figures.
    pub fn record_latency(&mut self, latency_us: u64)
        requires
            old(self).segment_count < u64::MAX,
            old(self).total_latency_ms + latency_us / 1000 <= u64::MAX,
        ensures
            final(self).segment_count == old(self).segment_count + 1,
            final(self).total_latency_ms == old(self).total_latency_ms + latency_us / 1000,
            final(self).min_latency_ms == if latency_us / 1000 < old(self).min_latency_ms {
                latency_us / 1000
            } else {
                old(self).min_latency_ms
            },
            final(self).max_latency_ms == if latency_us / 1000 > old(self).max_latency_ms {
                latency_us / 1000
            } else {
                old(self).max_latency_ms
            },
            final(self).session_id == old(self).session_id,
            final(self).start_time_us == old(self).start_time_us,
    {
        let latency_ms = latency_us / 1000;
        self.segment_count = self.segment_count + 1;
        self.total_latency_ms = self.total_latency_ms + latency_ms;
        if latency_ms < self.min_latency_ms {
            self.min_latency_ms = latency_ms;
        }
        if latency_ms > self.max_latency_ms {
            self.max_latency_ms = latency_ms;
        }
    }

    /// Mean latency in whole milliseconds; 0 before the first.
    pub fn average_latency(&self) -> (r: u64)
        ensures
            r == if self.segment_count > 0 {
                self.total_latency_ms / self.segment_count
            } else {
                0
            },
    {
        if self.segment_count > 0 {
            self.total_latency_ms / self.segment_count
        } else {
            0
        }
    }
}

/// A message pushed to alert subscribers.
#[derive(Debug, Clone, Copy)]
pub enum AlertMessage {
    LatencyAlert { session_id: u128, alert: LatencyAlertType, timestamp: u64 },
    StatisticsUpdate { session_id: u128, statistics: LatencyStatistics, timestamp: u64 },
    SessionStarted { session_id: u128, timestamp: u64 },
    SessionEnded { session_id: u128, timestamp: u64 },
}

/// The session a message is about.
pub open spec fn message_session(m: AlertMessage) -> u128 {
    match m {
        AlertMessage::LatencyAlert { session_id, .. } => session_id,
        AlertMessage::StatisticsUpdate { session_id, .. } => session_id,
        AlertMessage::SessionStarted { session_id, .. } => session_id,
        AlertMessage::SessionEnded { session_id, .. } => session_id,
    }
}

/// Selects the alert messages of one session, or all.
#[derive(Debug, Clone, Copy)]
pub struct AlertFilter {
    pub session_id: Option<u128>,
}

impl AlertFilter {
    /// A filter that lets every message through.
    pub fn new() -> (f: Self)
        ensures
            f.session_id.is_none(),
    {
        AlertFilter { session_id: None }
    }

    /// The filter restricted to one session.
    pub fn with_session(self, session_id: u128) -> (f: Self)
        ensures
            f.session_id == Some(session_id),
    {
        AlertFilter { session_id: Some(session_id) }
    }

    /// Whether `message` passes: always without a session, else when it is
    /// about that session.
    pub fn matches(&self, message: &AlertMessage) -> (r: bool)
        ensures
            r == match self.session_id {
                None => true,
                Some(s) => message_session(*message) == s,
            },
    {
        match self.session_id {
            None => true,
            Some(filter_session_id) => {
                let sid = match message {
                    AlertMessage::LatencyAlert { session_id, .. } => *session_id,
                    AlertMessage::StatisticsUpdate { session_id, .. } => *session_id,
                    AlertMessage::SessionStarted { session_id, .. } => *session_id,
                    AlertMessage::SessionEnded { session_id, .. } => *session_id,
                };
                sid == filter_session_id
            },
        }
    }
}

impl Default for AlertFilter {
    fn default() -> (f: Self)
        ensures
            f.session_id.is_none(),
    {
        Self::new()
    }
}

} // verus!
