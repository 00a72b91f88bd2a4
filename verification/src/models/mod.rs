//! Data model: response wrappers, domain records, and request parameters.

pub mod common;
pub mod company;
pub mod filing;
pub mod insider;
pub mod institutional;
pub mod params;

pub use common::PaginatedResponse;
pub use company::{Address, Company, CompanySearchResult, SicCode, Ticker};
pub use filing::{EntityClass, Filing, FilingCompany, FilingDetail, FilingDocument, FilingRole};
pub use insider::{AcquiredDisposed, DirectIndirect, InsiderTransaction};
pub use institutional::{InstitutionalHolding, InvestmentDiscretion, PutCall, SharesType};
pub use params::{FilingStatus, ListFilingsParams, ListFilingsParamsBuilder, ListInsiderParams,
    ListInsiderParamsBuilder, ListInstitutionalParams, ListInstitutionalParamsBuilder,
    PutCallFilter, SearchCompaniesParams, SearchCompaniesParamsBuilder, TransactionDirection};
