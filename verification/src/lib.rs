//! Typed client library for a financial-filings REST API.
//!
//! The library holds the verified core of the client: configuration
//! validation, query-parameter serialization, response classification
//! into a closed error taxonomy, and the cursor-pagination state machine.
//! The HTTP transport itself is ordinary asynchronous plumbing that sits
//! outside this crate and hands plain values in and out.

pub mod config;
pub mod error;
pub mod models;
pub mod pagination;
pub mod query;
pub mod text;
pub mod transport;

pub use config::{ClientConfig, ClientConfigBuilder, ResolvedConfig, DEFAULT_BASE_URL,
    DEFAULT_TIMEOUT};
pub use error::Error;
pub use models::{AcquiredDisposed, Address, Company, CompanySearchResult, DirectIndirect,
    EntityClass, Filing, FilingCompany, FilingDetail, FilingDocument, FilingRole, FilingStatus,
    InsiderTransaction, InstitutionalHolding, InvestmentDiscretion, ListFilingsParams,
    ListFilingsParamsBuilder, ListInsiderParams, ListInsiderParamsBuilder,
    ListInstitutionalParams, ListInstitutionalParamsBuilder, PaginatedResponse, PutCall,
    PutCallFilter, SearchCompaniesParams, SearchCompaniesParamsBuilder, SharesType, Ticker,
    SicCode, TransactionDirection};
pub use pagination::PageFlow;
pub use text::{join_comma, parse_u64, u64_to_string};
pub use transport::{build_url, company_path, evaluate_response, filing_path, COMPANY_SEARCH_PATH,
    FILINGS_PATH, INSIDER_TRANSACTIONS_PATH, INSTITUTIONAL_HOLDINGS_PATH};
