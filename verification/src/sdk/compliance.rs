//! Compliance reports.

use vstd::prelude::*;
use crate::sdk::clock::unix_timestamp;

verus! {

/// A compliance report of an organization.
#[derive(Debug, Clone)]
pub struct ComplianceReport {
    pub organization: String,
    /// When the report was made, in seconds since the epoch.
    pub report_date: i64,
    pub overall_score: u8,
    pub nist_fips_203_compliant: bool,
    pub nist_fips_204_compliant: bool,
    pub nist_fips_205_compliant: bool,
    pub recommendations: Vec<String>,
}

impl ComplianceReport {
    /// Whether the report is the blank one of `organization` made at
    /// `report_date`: score 0, no standard met, no recommendation.
    pub open spec fn is_blank(&self, organization: Seq<char>, report_date: i64) -> bool {
        &&& self.organization@ == organization
        &&& self.report_date == report_date
        &&& self.overall_score == 0
        &&& !self.nist_fips_203_compliant
        &&& !self.nist_fips_204_compliant
        &&& !self.nist_fips_205_compliant
        &&& self.recommendations@.len() == 0
    }

    /// Builds the blank report of `organization` with the given date.
    pub fn dated(organization: String, report_date: i64) -> (report: ComplianceReport)
        ensures
            report.is_blank(organization@, report_date),
            report.organization == organization,
    {
        ComplianceReport {
            organization,
            report_date,
            overall_score: 0,
            nist_fips_203_compliant: false,
            nist_fips_204_compliant: false,
            nist_fips_205_compliant: false,
            recommendations: Vec::new(),
        }
    }

    /// Builds the blank report of `organization`, dated by the clock of
    /// the machine.
    pub fn new(organization: String) -> (report: ComplianceReport)
        ensures
            report.is_blank(organization@, report.report_date),
            report.organization == organization,
    {
        let report_date = unix_timestamp();
        ComplianceReport::dated(organization, report_date)
    }
}

} // verus!
