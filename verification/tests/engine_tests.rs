use selector::common::{field_error, result_risks, risk, rule, unit, FieldUnit};
use selector::models::{FieldError, RiskItem};
use selector::registry::{calculation_module, module_kind, module_kinds, ModuleKind};
use selector::safety_factor::{self, SafetyFactorInput};
use selector::units::{conversion, field_conversion, ScaleFactor, UnitConversion, UnitError};

#[test]
fn unit_conversions_follow_the_table() {
    assert_eq!(conversion("mm", "mm"), Ok(UnitConversion::Identity));
    assert_eq!(conversion("teeth", "teeth"), Ok(UnitConversion::Identity));
    assert_eq!(conversion("mm", "m"), Ok(UnitConversion::Divide(ScaleFactor::Thousand)));
    assert_eq!(conversion("m", "mm"), Ok(UnitConversion::Multiply(ScaleFactor::Thousand)));
    assert_eq!(conversion("m/s", "mm/s"), Ok(UnitConversion::Multiply(ScaleFactor::Thousand)));
    assert_eq!(conversion("mm/s", "m/s"), Ok(UnitConversion::Divide(ScaleFactor::Thousand)));
    assert_eq!(conversion("min", "s"), Ok(UnitConversion::Multiply(ScaleFactor::Sixty)));
    assert_eq!(conversion("s", "min"), Ok(UnitConversion::Divide(ScaleFactor::Sixty)));
    assert_eq!(conversion("rpm", "rps"), Ok(UnitConversion::Divide(ScaleFactor::Sixty)));
    assert_eq!(conversion("rps", "rpm"), Ok(UnitConversion::Multiply(ScaleFactor::Sixty)));
    assert_eq!(conversion("kW", "W"), Ok(UnitConversion::Multiply(ScaleFactor::Thousand)));
    assert_eq!(conversion("W", "kW"), Ok(UnitConversion::Divide(ScaleFactor::Thousand)));
    assert_eq!(conversion("kg", "N"), Ok(UnitConversion::Multiply(ScaleFactor::StandardGravity)));
    assert_eq!(conversion("N", "kg"), Ok(UnitConversion::Divide(ScaleFactor::StandardGravity)));
}

#[test]
fn unsupported_conversion_is_reported() {
    let error = conversion("mm", "kg").unwrap_err();
    assert_eq!(
        error,
        UnitError::Unsupported { from: "mm".to_string(), to: "kg".to_string() }
    );
    assert_eq!(error.message(), "不支持单位换算：mm -> kg");
    assert_eq!(
        field_conversion("cm", "mm", "stroke"),
        Err(FieldError {
            field_id: "stroke".to_string(),
            message: "不支持单位换算：cm -> mm".to_string(),
        })
    );
    assert_eq!(
        field_conversion("min", "s", "accelerationTime"),
        Ok(UnitConversion::Multiply(ScaleFactor::Sixty))
    );
}

#[test]
fn conversions_undo_each_other() {
    let units = ["mm", "m", "mm/s", "m/s", "min", "s", "rpm", "rps", "kW", "W", "kg", "N", "x"];
    for a in units {
        for b in units {
            let there = conversion(a, b);
            let back = conversion(b, a);
            assert_eq!(there.is_ok(), back.is_ok(), "{a} {b}");
            if let (Ok(x), Ok(y)) = (there, back) {
                let expected = match x {
                    UnitConversion::Identity => UnitConversion::Identity,
                    UnitConversion::Multiply(k) => UnitConversion::Divide(k),
                    UnitConversion::Divide(k) => UnitConversion::Multiply(k),
                };
                assert_eq!(y, expected);
            }
        }
    }
}

#[test]
fn safety_factor_must_be_confirmed_and_positive() {
    let unconfirmed = safety_factor::validate(SafetyFactorInput::Positive, false).unwrap_err();
    assert_eq!(unconfirmed.field_id, "safetyFactor");
    assert_eq!(unconfirmed.message, "安全系数必须由用户手动输入或确认");
    let missing_unconfirmed = safety_factor::validate(SafetyFactorInput::Missing, false).unwrap_err();
    assert_eq!(missing_unconfirmed.message, "安全系数必须由用户手动输入或确认");
    let missing = safety_factor::validate(SafetyFactorInput::Missing, true).unwrap_err();
    assert_eq!(missing.message, "安全系数不能为空");
    let zero = safety_factor::validate(SafetyFactorInput::NotPositive, true).unwrap_err();
    assert_eq!(zero.field_id, "safetyFactor");
    assert_eq!(zero.message, "安全系数必须大于 0");
    assert_eq!(safety_factor::validate(SafetyFactorInput::Positive, true), Ok(()));
}

#[test]
fn low_safety_factor_is_flagged() {
    assert_eq!(safety_factor::risk(false, "src"), None);
    let item = safety_factor::risk(true, "工程公式库 / 同步带").unwrap();
    assert_eq!(item.level, "warning");
    assert_eq!(item.message, "安全系数低于 1.2，建议复核冲击、偏载和启停工况。");
    assert_eq!(item.field_id, Some("safetyFactor".to_string()));
    assert_eq!(item.source, "工程公式库 / 同步带");
}

#[test]
fn rule_and_risk_carry_their_texts() {
    let r = rule("timing-belt-speed", "速度区间", "ok".to_string(), "basis".to_string(), "low", "s");
    assert_eq!(r.id, "timing-belt-speed");
    assert_eq!(r.label, "速度区间");
    assert_eq!(r.recommendation, "ok");
    assert_eq!(r.basis, "basis");
    assert_eq!(r.risk, "low");
    assert_eq!(r.source, "s");
    let k = risk("warning", "msg", Some("targetSpeed"), "src");
    assert_eq!(
        k,
        RiskItem {
            level: "warning".to_string(),
            message: "msg".to_string(),
            field_id: Some("targetSpeed".to_string()),
            source: "src".to_string(),
        }
    );
    assert_eq!(risk("info", "m", None, "s").field_id, None);
    let e: Result<u8, FieldError> = field_error("loadMass", "字段值必须大于 0");
    assert_eq!(
        e,
        Err(FieldError { field_id: "loadMass".to_string(), message: "字段值必须大于 0".to_string() })
    );
    let e = FieldError { field_id: "loadMass".to_string(), message: "必填字段不能为空".to_string() };
    assert_eq!(e.command_message(), "loadMass：必填字段不能为空");
}

#[test]
fn empty_risk_list_becomes_success_note() {
    let risks = result_risks(Vec::new(), "工程公式库 / 减速机");
    assert_eq!(risks.len(), 1);
    assert_eq!(risks[0].level, "success");
    assert_eq!(risks[0].message, "未发现基础计算风险。");
    assert_eq!(risks[0].field_id, None);
    assert_eq!(risks[0].source, "工程公式库 / 减速机");
    let found = vec![risk("warning", "a", None, "s"), risk("warning", "b", Some("f"), "s")];
    assert_eq!(result_risks(found.clone(), "p"), found);
}

#[test]
fn unit_lookup_takes_the_last_field() {
    let fields = vec![
        FieldUnit { id: "targetSpeed".to_string(), unit: "mm/s".to_string() },
        FieldUnit { id: "toothPitch".to_string(), unit: "mm".to_string() },
        FieldUnit { id: "targetSpeed".to_string(), unit: "m/s".to_string() },
    ];
    assert_eq!(unit(&fields, "targetSpeed"), Ok("m/s"));
    assert_eq!(unit(&fields, "toothPitch"), Ok("mm"));
    assert_eq!(
        unit(&fields, "lead"),
        Err(FieldError { field_id: "lead".to_string(), message: "字段单位不能为空".to_string() })
    );
}

#[test]
fn module_ids_select_modules() {
    let kinds = module_kinds();
    assert_eq!(
        kinds,
        vec![
            ModuleKind::TimingBelt,
            ModuleKind::BallScrew,
            ModuleKind::Reducer,
            ModuleKind::LinearModule,
            ModuleKind::Motor,
            ModuleKind::ServoStepper,
        ]
    );
    for kind in &kinds {
        assert_eq!(module_kind(kind.id()), Some(*kind));
    }
    assert_eq!(module_kind("timing-belt-basic"), Some(ModuleKind::TimingBelt));
    assert_eq!(module_kind("servo-stepper-sizing"), Some(ModuleKind::ServoStepper));
    assert_eq!(module_kind("cylinder-basic"), None);
    assert_eq!(calculation_module("general-motor-power"), Ok(ModuleKind::Motor));
    let error = calculation_module("v-belt-basic").unwrap_err();
    assert_eq!(error.field_id, "moduleId");
    assert_eq!(error.message, "该模块尚未实现计算公式");
}
