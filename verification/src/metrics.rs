//! The counters that the handling of requests moves.
use crate::handler::JsonRpcHandler;
use crate::text::{
    law_signed_decimal_reads_back, signed_decimal, signed_number, write_signed_decimal,
};
use vstd::prelude::*;

verus! {

/// A counter, or a time that is recorded, with its labels.
#[derive(Debug, PartialEq, Eq)]
pub enum Metric {
    /// One more request of a method.
    HttpRpcRequestCount { method: String },
    /// The time that a request of a method took.
    RpcProcessingTime { method: String },
    /// One more request of a method that ended in an error, with its code.
    RpcErrorCount { method: String, err_code: String },
    /// One more time limit that was reached.
    RpcTimeoutTotal,
    /// One more request for the status page.
    HttpStatusRequestCount,
    /// One more request for the metrics.
    PrometheusRequestCount,
}

/// Whether the metrics are those of a request that is answered: it is counted and timed under
/// its name, and where the answer is an error that is counted too, with the code.
pub open spec fn are_of_request(
    metrics: Seq<Metric>,
    metrics_name: Seq<char>,
    err_code: Option<i64>,
) -> bool {
    &&& metrics.len() == (if err_code is Some {
        3int
    } else {
        2int
    })
    &&& metrics[0] matches Metric::HttpRpcRequestCount { method } && method@ == metrics_name
    &&& metrics[1] matches Metric::RpcProcessingTime { method } && method@ == metrics_name
    &&& err_code matches Some(code) ==> (metrics[2] matches Metric::RpcErrorCount {
        method,
        err_code: text,
    } && method@ == metrics_name && text@ == signed_decimal(code as int))
}

impl JsonRpcHandler {
    /// A request is answered, with an error of that code if it is one: what is recorded of it.
    pub fn process_request(metrics_name: &String, err_code: Option<i64>) -> (metrics: Vec<Metric>)
        ensures
            are_of_request(metrics@, metrics_name@, err_code),
    {
        let mut metrics: Vec<Metric> = Vec::new();
        metrics.push(Metric::HttpRpcRequestCount { method: metrics_name.clone() });
        metrics.push(Metric::RpcProcessingTime { method: metrics_name.clone() });
        if let Some(code) = err_code {
            metrics.push(
                Metric::RpcErrorCount {
                    method: metrics_name.clone(),
                    err_code: write_signed_decimal(code),
                },
            );
        }
        metrics
    }
}

/// What is recorded of a request is recorded under its name, and nothing else is: that it was
/// made, the time it took, and, where it failed, that it failed with a code. The text of the code
/// reads back as the code.
pub proof fn law_requests_are_recorded(
    metrics_name: String,
    err_code: Option<i64>,
    metrics: Vec<Metric>,
)
    requires
        call_ensures(JsonRpcHandler::process_request, (&metrics_name, err_code), metrics),
    ensures
        metrics@.len() == 2 <==> err_code is None,
        metrics@.len() == 3 <==> err_code is Some,
        forall|i: int|
            0 <= i < metrics@.len() ==> match #[trigger] metrics@[i] {
                Metric::HttpRpcRequestCount { method } => i == 0 && method@ == metrics_name@,
                Metric::RpcProcessingTime { method } => i == 1 && method@ == metrics_name@,
                Metric::RpcErrorCount { method, err_code: text } => i == 2 && method@
                    == metrics_name@ && err_code == Some(signed_number(text@) as i64),
                _ => false,
            },
{
    if let Some(code) = err_code {
        law_signed_decimal_reads_back(code as int);
    }
}

} // verus!
