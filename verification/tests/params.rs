//! The query-parameter and argument surfaces read as exclusion masks.

use kgc_core::cli::CliArgs;
use kgc_core::waste::{WasteCategory, WasteTypeBitmask};

#[test]
fn handler_test_from_query_params_for_exclude_waste_type() {
    let exclude_query_params = kgc_core::handler::QueryParams {
        street: "".to_string(),
        street_number: "".to_string(),
        exclude_residual: false,
        exclude_organic: false,
        exclude_recyclable: false,
        exclude_paper: false,
        exclude_bulky: false,
    };
    let exclude_from_query_params = WasteTypeBitmask::from(&exclude_query_params);
    assert_eq!(exclude_from_query_params, WasteTypeBitmask::none());
    let exclude_query_params = kgc_core::handler::QueryParams {
        street: "".to_string(),
        street_number: "".to_string(),
        exclude_residual: true,
        exclude_organic: false,
        exclude_recyclable: false,
        exclude_paper: false,
        exclude_bulky: false,
    };
    let exclude_from_query_params = WasteTypeBitmask::from(&exclude_query_params);
    assert_eq!(
        exclude_from_query_params,
        WasteTypeBitmask::only(WasteCategory::Residual)
    );
    let exclude_query_params = kgc_core::handler::QueryParams {
        street: "".to_string(),
        street_number: "".to_string(),
        exclude_residual: false,
        exclude_organic: true,
        exclude_recyclable: false,
        exclude_paper: false,
        exclude_bulky: false,
    };
    let exclude_from_query_params = WasteTypeBitmask::from(&exclude_query_params);
    assert_eq!(
        exclude_from_query_params,
        WasteTypeBitmask::only(WasteCategory::Organic)
    );
    let exclude_query_params = kgc_core::handler::QueryParams {
        street: "".to_string(),
        street_number: "".to_string(),
        exclude_residual: false,
        exclude_organic: false,
        exclude_recyclable: true,
        exclude_paper: true,
        exclude_bulky: true,
    };
    let exclude_from_query_params = WasteTypeBitmask::from(&exclude_query_params);
    assert_eq!(
        exclude_from_query_params,
        WasteTypeBitmask::only(WasteCategory::Recyclable)
            .or(WasteTypeBitmask::only(WasteCategory::Paper))
            .or(WasteTypeBitmask::only(WasteCategory::Bulky))
    );
}

#[test]
fn calendar_test_from_query_params_for_exclude_waste_type() {
    let street_query_params = kgc_core::route::calendar::StreetQueryParams {
        street: "".to_string(),
        street_number: "".to_string(),
    };
    let exclude_query_params = kgc_core::route::calendar::QueryParams {
        street_query_params: street_query_params.clone(),
        exclude_residual: false,
        exclude_organic: false,
        exclude_recyclable: false,
        exclude_paper: false,
        exclude_bulky: false,
    };
    let exclude_from_query_params = WasteTypeBitmask::from(&exclude_query_params);
    assert_eq!(exclude_from_query_params, WasteTypeBitmask::none());
    let exclude_query_params = kgc_core::route::calendar::QueryParams {
        street_query_params: street_query_params.clone(),
        exclude_residual: true,
        exclude_organic: false,
        exclude_recyclable: false,
        exclude_paper: false,
        exclude_bulky: false,
    };
    let exclude_from_query_params = WasteTypeBitmask::from(&exclude_query_params);
    assert_eq!(
        exclude_from_query_params,
        WasteTypeBitmask::only(WasteCategory::Residual)
    );
    let exclude_query_params = kgc_core::route::calendar::QueryParams {
        street_query_params: street_query_params.clone(),
        exclude_residual: false,
        exclude_organic: true,
        exclude_recyclable: false,
        exclude_paper: false,
        exclude_bulky: false,
    };
    let exclude_from_query_params = WasteTypeBitmask::from(&exclude_query_params);
    assert_eq!(
        exclude_from_query_params,
        WasteTypeBitmask::only(WasteCategory::Organic)
    );
    let exclude_query_params = kgc_core::route::calendar::QueryParams {
        street_query_params,
        exclude_residual: false,
        exclude_organic: false,
        exclude_recyclable: true,
        exclude_paper: true,
        exclude_bulky: true,
    };
    let exclude_from_query_params = WasteTypeBitmask::from(&exclude_query_params);
    assert_eq!(
        exclude_from_query_params,
        WasteTypeBitmask::only(WasteCategory::Recyclable)
            .or(WasteTypeBitmask::only(WasteCategory::Paper))
            .or(WasteTypeBitmask::only(WasteCategory::Bulky))
    );
}

#[test]
fn test_from_cli_args_for_exclude_waste_type() {
    let args = CliArgs {
        street: "street".to_string(),
        street_number: "1".to_string(),
        exclude_residual: false,
        exclude_organic: false,
        exclude_recyclable: false,
        exclude_paper: true,
        exclude_bulky: false,
    };
    assert_eq!(
        WasteTypeBitmask::from(&args),
        WasteTypeBitmask::only(WasteCategory::Paper)
    );
}

#[test]
fn test_inverted_mask() {
    let inverted = WasteTypeBitmask::inverted(WasteCategory::Paper);
    assert!(inverted.contains(WasteCategory::Residual));
    assert!(inverted.contains(WasteCategory::Organic));
    assert!(inverted.contains(WasteCategory::Recyclable));
    assert!(!inverted.contains(WasteCategory::Paper));
    assert!(inverted.contains(WasteCategory::Bulky));
}
