//! The servo's memory table as the datasheet lays it out, column by column
//! and keyed by the register address constants, and the laws that the table
//! returned by `get_register_table` agrees with it entry by entry.
use vstd::prelude::*;
use crate::registers::{read_only, read_write, register_table_spec};
use crate::servo_protocol::{
    ADDR_FIRMWARE_MAJOR,
    ADDR_FIRMWARE_MINOR,
    ADDR_SERVO_MAJOR,
    ADDR_SERVO_MINOR,
    ADDR_ID,
    ADDR_BAUD_RATE,
    ADDR_RETURN_DELAY,
    ADDR_RESPONSE_LEVEL,
    ADDR_MIN_ANGLE,
    ADDR_MAX_ANGLE,
    ADDR_MAX_TEMP,
    ADDR_MAX_VOLTAGE,
    ADDR_MIN_VOLTAGE,
    ADDR_MAX_TORQUE,
    ADDR_PHASE,
    ADDR_UNLOAD_COND,
    ADDR_LED_ALARM,
    ADDR_POS_P,
    ADDR_POS_D,
    ADDR_POS_I,
    ADDR_MIN_STARTUP_FORCE,
    ADDR_INTEGRAL_LIMIT,
    ADDR_CW_DEAD_ZONE,
    ADDR_CCW_DEAD_ZONE,
    ADDR_PROTECT_CURRENT,
    ADDR_ANGLE_RESOLUTION,
    ADDR_POS_CORRECTION,
    ADDR_OPERATION_MODE,
    ADDR_PROTECT_TORQUE,
    ADDR_PROTECT_TIME,
    ADDR_OVERLOAD_TORQUE,
    ADDR_SPEED_P,
    ADDR_OVERCURRENT_TIME,
    ADDR_SPEED_I,
    ADDR_TORQUE_SWITCH,
    ADDR_ACCELERATION,
    ADDR_TARGET_POSITION,
    ADDR_RUNNING_TIME,
    ADDR_RUNNING_SPEED,
    ADDR_TORQUE_LIMIT,
    ADDR_LOCK_FLAG,
    ADDR_CURRENT_POSITION,
    ADDR_CURRENT_SPEED,
    ADDR_CURRENT_LOAD,
    ADDR_CURRENT_VOLTAGE,
    ADDR_CURRENT_TEMP,
    ADDR_ASYNC_WRITE_FLAG,
    ADDR_SERVO_STATUS,
    ADDR_MOVING_FLAG,
    ADDR_CURRENT_CURRENT,
};

verus! {

/// The register addresses, in table order.
pub open spec fn datasheet_addresses() -> Seq<u8> {
    seq![
        ADDR_FIRMWARE_MAJOR,
        ADDR_FIRMWARE_MINOR,
        ADDR_SERVO_MAJOR,
        ADDR_ID,
        ADDR_BAUD_RATE,
        ADDR_RETURN_DELAY,
        ADDR_RESPONSE_LEVEL,
        ADDR_MIN_ANGLE,
        ADDR_MAX_ANGLE,
        ADDR_MAX_TEMP,
        ADDR_MAX_VOLTAGE,
        ADDR_MIN_VOLTAGE,
        ADDR_MAX_TORQUE,
        ADDR_PHASE,
        ADDR_UNLOAD_COND,
        ADDR_LED_ALARM,
        ADDR_POS_P,
        ADDR_POS_D,
        ADDR_POS_I,
        ADDR_MIN_STARTUP_FORCE,
        ADDR_INTEGRAL_LIMIT,
        ADDR_CW_DEAD_ZONE,
        ADDR_CCW_DEAD_ZONE,
        ADDR_PROTECT_CURRENT,
        ADDR_ANGLE_RESOLUTION,
        ADDR_POS_CORRECTION,
        ADDR_OPERATION_MODE,
        ADDR_PROTECT_TORQUE,
        ADDR_PROTECT_TIME,
        ADDR_OVERLOAD_TORQUE,
        ADDR_SPEED_P,
        ADDR_OVERCURRENT_TIME,
        ADDR_SPEED_I,
        ADDR_TORQUE_SWITCH,
        ADDR_ACCELERATION,
        ADDR_TARGET_POSITION,
        ADDR_RUNNING_TIME,
        ADDR_RUNNING_SPEED,
        ADDR_TORQUE_LIMIT,
        ADDR_LOCK_FLAG,
        ADDR_CURRENT_POSITION,
        ADDR_CURRENT_SPEED,
        ADDR_CURRENT_LOAD,
        ADDR_CURRENT_VOLTAGE,
        ADDR_CURRENT_TEMP,
        ADDR_ASYNC_WRITE_FLAG,
        ADDR_SERVO_STATUS,
        ADDR_MOVING_FLAG,
        ADDR_CURRENT_CURRENT,
    ]
}

/// The registers that hold a 16-bit quantity, stored in two bytes.
pub open spec fn is_word_register(a: u8) -> bool {
    a == ADDR_MIN_ANGLE
        || a == ADDR_MAX_ANGLE
        || a == ADDR_MAX_TORQUE
        || a == ADDR_PROTECT_CURRENT
        || a == ADDR_POS_CORRECTION
        || a == ADDR_TARGET_POSITION
        || a == ADDR_RUNNING_TIME
        || a == ADDR_RUNNING_SPEED
        || a == ADDR_TORQUE_LIMIT
        || a == ADDR_CURRENT_POSITION
        || a == ADDR_CURRENT_SPEED
        || a == ADDR_CURRENT_LOAD
        || a == ADDR_CURRENT_CURRENT
}

/// The factory default of each register, where it has one.
pub open spec fn datasheet_default(a: u8) -> Option<i32> {
    if a == ADDR_FIRMWARE_MAJOR {
        Some(3i32)
    } else if a == ADDR_FIRMWARE_MINOR {
        Some(9i32)
    } else if a == ADDR_SERVO_MAJOR {
        Some(9i32)
    } else if a == ADDR_ID {
        Some(1i32)
    } else if a == ADDR_BAUD_RATE {
        Some(0i32)
    } else if a == ADDR_RETURN_DELAY {
        Some(0i32)
    } else if a == ADDR_RESPONSE_LEVEL {
        Some(1i32)
    } else if a == ADDR_MIN_ANGLE {
        Some(0i32)
    } else if a == ADDR_MAX_ANGLE {
        Some(4095i32)
    } else if a == ADDR_MAX_TEMP {
        Some(70i32)
    } else if a == ADDR_MAX_VOLTAGE {
        Some(80i32)
    } else if a == ADDR_MIN_VOLTAGE {
        Some(40i32)
    } else if a == ADDR_MAX_TORQUE {
        Some(1000i32)
    } else if a == ADDR_PHASE {
        Some(12i32)
    } else if a == ADDR_UNLOAD_COND {
        Some(44i32)
    } else if a == ADDR_LED_ALARM {
        Some(47i32)
    } else if a == ADDR_POS_P {
        Some(32i32)
    } else if a == ADDR_POS_D {
        Some(32i32)
    } else if a == ADDR_POS_I {
        Some(0i32)
    } else if a == ADDR_MIN_STARTUP_FORCE {
        Some(16i32)
    } else if a == ADDR_INTEGRAL_LIMIT {
        Some(0i32)
    } else if a == ADDR_CW_DEAD_ZONE {
        Some(1i32)
    } else if a == ADDR_CCW_DEAD_ZONE {
        Some(1i32)
    } else if a == ADDR_PROTECT_CURRENT {
        Some(500i32)
    } else if a == ADDR_ANGLE_RESOLUTION {
        Some(1i32)
    } else if a == ADDR_POS_CORRECTION {
        Some(0i32)
    } else if a == ADDR_OPERATION_MODE {
        Some(0i32)
    } else if a == ADDR_PROTECT_TORQUE {
        Some(20i32)
    } else if a == ADDR_PROTECT_TIME {
        Some(200i32)
    } else if a == ADDR_OVERLOAD_TORQUE {
        Some(80i32)
    } else if a == ADDR_SPEED_P {
        Some(10i32)
    } else if a == ADDR_OVERCURRENT_TIME {
        Some(200i32)
    } else if a == ADDR_SPEED_I {
        Some(200i32)
    } else if a == ADDR_TORQUE_SWITCH {
        Some(0i32)
    } else if a == ADDR_ACCELERATION {
        Some(0i32)
    } else if a == ADDR_TARGET_POSITION {
        Some(0i32)
    } else if a == ADDR_RUNNING_TIME {
        Some(0i32)
    } else if a == ADDR_RUNNING_SPEED {
        Some(0i32)
    } else if a == ADDR_TORQUE_LIMIT {
        Some(1000i32)
    } else if a == ADDR_LOCK_FLAG {
        Some(1i32)
    } else if a == ADDR_CURRENT_POSITION {
        None
    } else if a == ADDR_CURRENT_SPEED {
        None
    } else if a == ADDR_CURRENT_LOAD {
        None
    } else if a == ADDR_CURRENT_VOLTAGE {
        None
    } else if a == ADDR_CURRENT_TEMP {
        None
    } else if a == ADDR_ASYNC_WRITE_FLAG {
        Some(0i32)
    } else if a == ADDR_SERVO_STATUS {
        Some(0i32)
    } else if a == ADDR_MOVING_FLAG {
        Some(0i32)
    } else if a == ADDR_CURRENT_CURRENT {
        None
    } else {
        None
    }
}

/// The accepted range `(min, max)` of each writable register.
pub open spec fn datasheet_range(a: u8) -> Option<(i32, i32)> {
    if a == ADDR_FIRMWARE_MAJOR {
        None
    } else if a == ADDR_FIRMWARE_MINOR {
        None
    } else if a == ADDR_SERVO_MAJOR {
        None
    } else if a == ADDR_ID {
        Some((0i32, 253i32))
    } else if a == ADDR_BAUD_RATE {
        Some((0i32, 7i32))
    } else if a == ADDR_RETURN_DELAY {
        Some((0i32, 254i32))
    } else if a == ADDR_RESPONSE_LEVEL {
        Some((0i32, 1i32))
    } else if a == ADDR_MIN_ANGLE {
        Some((0i32, 4094i32))
    } else if a == ADDR_MAX_ANGLE {
        Some((1i32, 4095i32))
    } else if a == ADDR_MAX_TEMP {
        Some((0i32, 100i32))
    } else if a == ADDR_MAX_VOLTAGE {
        Some((0i32, 254i32))
    } else if a == ADDR_MIN_VOLTAGE {
        Some((0i32, 254i32))
    } else if a == ADDR_MAX_TORQUE {
        Some((0i32, 1000i32))
    } else if a == ADDR_PHASE {
        Some((0i32, 254i32))
    } else if a == ADDR_UNLOAD_COND {
        Some((0i32, 254i32))
    } else if a == ADDR_LED_ALARM {
        Some((0i32, 254i32))
    } else if a == ADDR_POS_P {
        Some((0i32, 254i32))
    } else if a == ADDR_POS_D {
        Some((0i32, 254i32))
    } else if a == ADDR_POS_I {
        Some((0i32, 254i32))
    } else if a == ADDR_MIN_STARTUP_FORCE {
        Some((0i32, 254i32))
    } else if a == ADDR_INTEGRAL_LIMIT {
        Some((0i32, 254i32))
    } else if a == ADDR_CW_DEAD_ZONE {
        Some((0i32, 32i32))
    } else if a == ADDR_CCW_DEAD_ZONE {
        Some((0i32, 32i32))
    } else if a == ADDR_PROTECT_CURRENT {
        Some((0i32, 511i32))
    } else if a == ADDR_ANGLE_RESOLUTION {
        Some((1i32, 3i32))
    } else if a == ADDR_POS_CORRECTION {
        Some((-2047i32, 2047i32))
    } else if a == ADDR_OPERATION_MODE {
        Some((0i32, 3i32))
    } else if a == ADDR_PROTECT_TORQUE {
        Some((0i32, 100i32))
    } else if a == ADDR_PROTECT_TIME {
        Some((0i32, 254i32))
    } else if a == ADDR_OVERLOAD_TORQUE {
        Some((0i32, 100i32))
    } else if a == ADDR_SPEED_P {
        Some((0i32, 254i32))
    } else if a == ADDR_OVERCURRENT_TIME {
        Some((0i32, 254i32))
    } else if a == ADDR_SPEED_I {
        Some((0i32, 254i32))
    } else if a == ADDR_TORQUE_SWITCH {
        Some((0i32, 128i32))
    } else if a == ADDR_ACCELERATION {
        Some((0i32, 254i32))
    } else if a == ADDR_TARGET_POSITION {
        Some((-32766i32, 32766i32))
    } else if a == ADDR_RUNNING_TIME {
        Some((0i32, 1000i32))
    } else if a == ADDR_RUNNING_SPEED {
        Some((-32766i32, 32766i32))
    } else if a == ADDR_TORQUE_LIMIT {
        Some((0i32, 1000i32))
    } else if a == ADDR_LOCK_FLAG {
        Some((0i32, 1i32))
    } else if a == ADDR_CURRENT_POSITION {
        None
    } else if a == ADDR_CURRENT_SPEED {
        None
    } else if a == ADDR_CURRENT_LOAD {
        None
    } else if a == ADDR_CURRENT_VOLTAGE {
        None
    } else if a == ADDR_CURRENT_TEMP {
        None
    } else if a == ADDR_ASYNC_WRITE_FLAG {
        None
    } else if a == ADDR_SERVO_STATUS {
        None
    } else if a == ADDR_MOVING_FLAG {
        None
    } else if a == ADDR_CURRENT_CURRENT {
        None
    } else {
        None
    }
}

/// The name of each register.
pub open spec fn datasheet_name(a: u8) -> Seq<char> {
    if a == ADDR_FIRMWARE_MAJOR {
        "固件主版本号"@
    } else if a == ADDR_FIRMWARE_MINOR {
        "固件次版本号"@
    } else if a == ADDR_SERVO_MAJOR {
        "舵机主版本号"@
    } else if a == ADDR_ID {
        "ID"@
    } else if a == ADDR_BAUD_RATE {
        "波特率"@
    } else if a == ADDR_RETURN_DELAY {
        "返回延时"@
    } else if a == ADDR_RESPONSE_LEVEL {
        "应答状态级别"@
    } else if a == ADDR_MIN_ANGLE {
        "最小角度限制"@
    } else if a == ADDR_MAX_ANGLE {
        "最大角度限制"@
    } else if a == ADDR_MAX_TEMP {
        "最高温度上限"@
    } else if a == ADDR_MAX_VOLTAGE {
        "最高输入电压"@
    } else if a == ADDR_MIN_VOLTAGE {
        "最低输入电压"@
    } else if a == ADDR_MAX_TORQUE {
        "最大扭矩"@
    } else if a == ADDR_PHASE {
        "相位"@
    } else if a == ADDR_UNLOAD_COND {
        "卸载条件"@
    } else if a == ADDR_LED_ALARM {
        "LED报警条件"@
    } else if a == ADDR_POS_P {
        "位置环P"@
    } else if a == ADDR_POS_D {
        "位置环D"@
    } else if a == ADDR_POS_I {
        "位置环I"@
    } else if a == ADDR_MIN_STARTUP_FORCE {
        "最小启动力"@
    } else if a == ADDR_INTEGRAL_LIMIT {
        "积分限制值"@
    } else if a == ADDR_CW_DEAD_ZONE {
        "顺时针不灵敏区"@
    } else if a == ADDR_CCW_DEAD_ZONE {
        "逆时针不灵敏区"@
    } else if a == ADDR_PROTECT_CURRENT {
        "保护电流"@
    } else if a == ADDR_ANGLE_RESOLUTION {
        "角度分辨率"@
    } else if a == ADDR_POS_CORRECTION {
        "位置校正"@
    } else if a == ADDR_OPERATION_MODE {
        "运行模式"@
    } else if a == ADDR_PROTECT_TORQUE {
        "保护扭矩"@
    } else if a == ADDR_PROTECT_TIME {
        "保护时间"@
    } else if a == ADDR_OVERLOAD_TORQUE {
        "过载扭矩"@
    } else if a == ADDR_SPEED_P {
        "速度闭环P"@
    } else if a == ADDR_OVERCURRENT_TIME {
        "过流保护时间"@
    } else if a == ADDR_SPEED_I {
        "速度闭环I"@
    } else if a == ADDR_TORQUE_SWITCH {
        "扭矩开关"@
    } else if a == ADDR_ACCELERATION {
        "加速度"@
    } else if a == ADDR_TARGET_POSITION {
        "目标位置"@
    } else if a == ADDR_RUNNING_TIME {
        "运行时间"@
    } else if a == ADDR_RUNNING_SPEED {
        "运行速度"@
    } else if a == ADDR_TORQUE_LIMIT {
        "转矩限制"@
    } else if a == ADDR_LOCK_FLAG {
        "锁标志"@
    } else if a == ADDR_CURRENT_POSITION {
        "当前位置"@
    } else if a == ADDR_CURRENT_SPEED {
        "当前速度"@
    } else if a == ADDR_CURRENT_LOAD {
        "当前负载"@
    } else if a == ADDR_CURRENT_VOLTAGE {
        "当前电压"@
    } else if a == ADDR_CURRENT_TEMP {
        "当前温度"@
    } else if a == ADDR_ASYNC_WRITE_FLAG {
        "异步写标志"@
    } else if a == ADDR_SERVO_STATUS {
        "舵机状态"@
    } else if a == ADDR_MOVING_FLAG {
        "移动标志"@
    } else if a == ADDR_CURRENT_CURRENT {
        "当前电流"@
    } else {
        Seq::empty()
    }
}

/// The unit of each register.
pub open spec fn datasheet_unit(a: u8) -> Seq<char> {
    if a == ADDR_FIRMWARE_MAJOR {
        ""@
    } else if a == ADDR_FIRMWARE_MINOR {
        ""@
    } else if a == ADDR_SERVO_MAJOR {
        ""@
    } else if a == ADDR_ID {
        "号"@
    } else if a == ADDR_BAUD_RATE {
        ""@
    } else if a == ADDR_RETURN_DELAY {
        "2us"@
    } else if a == ADDR_RESPONSE_LEVEL {
        ""@
    } else if a == ADDR_MIN_ANGLE {
        "步"@
    } else if a == ADDR_MAX_ANGLE {
        "步"@
    } else if a == ADDR_MAX_TEMP {
        "°C"@
    } else if a == ADDR_MAX_VOLTAGE {
        "0.1V"@
    } else if a == ADDR_MIN_VOLTAGE {
        "0.1V"@
    } else if a == ADDR_MAX_TORQUE {
        "‰"@
    } else if a == ADDR_PHASE {
        ""@
    } else if a == ADDR_UNLOAD_COND {
        ""@
    } else if a == ADDR_LED_ALARM {
        ""@
    } else if a == ADDR_POS_P {
        ""@
    } else if a == ADDR_POS_D {
        ""@
    } else if a == ADDR_POS_I {
        ""@
    } else if a == ADDR_MIN_STARTUP_FORCE {
        "‰"@
    } else if a == ADDR_INTEGRAL_LIMIT {
        ""@
    } else if a == ADDR_CW_DEAD_ZONE {
        "步"@
    } else if a == ADDR_CCW_DEAD_ZONE {
        "步"@
    } else if a == ADDR_PROTECT_CURRENT {
        "6.5mA"@
    } else if a == ADDR_ANGLE_RESOLUTION {
        ""@
    } else if a == ADDR_POS_CORRECTION {
        "步"@
    } else if a == ADDR_OPERATION_MODE {
        ""@
    } else if a == ADDR_PROTECT_TORQUE {
        "%"@
    } else if a == ADDR_PROTECT_TIME {
        "10ms"@
    } else if a == ADDR_OVERLOAD_TORQUE {
        "%"@
    } else if a == ADDR_SPEED_P {
        ""@
    } else if a == ADDR_OVERCURRENT_TIME {
        "10ms"@
    } else if a == ADDR_SPEED_I {
        "1/10"@
    } else if a == ADDR_TORQUE_SWITCH {
        ""@
    } else if a == ADDR_ACCELERATION {
        "100步/s²"@
    } else if a == ADDR_TARGET_POSITION {
        "步"@
    } else if a == ADDR_RUNNING_TIME {
        "‰"@
    } else if a == ADDR_RUNNING_SPEED {
        "步/s"@
    } else if a == ADDR_TORQUE_LIMIT {
        "%"@
    } else if a == ADDR_LOCK_FLAG {
        ""@
    } else if a == ADDR_CURRENT_POSITION {
        "步"@
    } else if a == ADDR_CURRENT_SPEED {
        "步/s"@
    } else if a == ADDR_CURRENT_LOAD {
        "‰"@
    } else if a == ADDR_CURRENT_VOLTAGE {
        "0.1V"@
    } else if a == ADDR_CURRENT_TEMP {
        "°C"@
    } else if a == ADDR_ASYNC_WRITE_FLAG {
        ""@
    } else if a == ADDR_SERVO_STATUS {
        ""@
    } else if a == ADDR_MOVING_FLAG {
        ""@
    } else if a == ADDR_CURRENT_CURRENT {
        "6.5mA"@
    } else {
        Seq::empty()
    }
}

/// The description of each register.
pub open spec fn datasheet_description(a: u8) -> Seq<char> {
    if a == ADDR_FIRMWARE_MAJOR {
        "固件主版本号"@
    } else if a == ADDR_FIRMWARE_MINOR {
        "固件次版本号"@
    } else if a == ADDR_SERVO_MAJOR {
        "舵机主版本号"@
    } else if a == ADDR_ID {
        "总线上唯一的身份识别码"@
    } else if a == ADDR_BAUD_RATE {
        "0-7: 1000000,500000,250000,128000,115200,76800,57600,38400"@
    } else if a == ADDR_RETURN_DELAY {
        "最大508us"@
    } else if a == ADDR_RESPONSE_LEVEL {
        "0:部分应答 1:全应答"@
    } else if a == ADDR_MIN_ANGLE {
        "运动行程最小值限制"@
    } else if a == ADDR_MAX_ANGLE {
        "运动行程最大值限制"@
    } else if a == ADDR_MAX_TEMP {
        "最高工作温度限制"@
    } else if a == ADDR_MAX_VOLTAGE {
        "最高输入电压限制"@
    } else if a == ADDR_MIN_VOLTAGE {
        "最低输入电压限制"@
    } else if a == ADDR_MAX_TORQUE {
        "最大输出扭矩限制 1000=100%"@
    } else if a == ADDR_PHASE {
        "特殊功能字节"@
    } else if a == ADDR_UNLOAD_COND {
        "保护条件设置"@
    } else if a == ADDR_LED_ALARM {
        "LED报警设置"@
    } else if a == ADDR_POS_P {
        "比例系数"@
    } else if a == ADDR_POS_D {
        "微分系数"@
    } else if a == ADDR_POS_I {
        "积分系数"@
    } else if a == ADDR_MIN_STARTUP_FORCE {
        "最小输出启动扭矩"@
    } else if a == ADDR_INTEGRAL_LIMIT {
        "0关闭积分限制"@
    } else if a == ADDR_CW_DEAD_ZONE {
        ""@
    } else if a == ADDR_CCW_DEAD_ZONE {
        ""@
    } else if a == ADDR_PROTECT_CURRENT {
        "最大3250mA"@
    } else if a == ADDR_ANGLE_RESOLUTION {
        "控制圈数放大系数"@
    } else if a == ADDR_POS_CORRECTION {
        "BIT11为方向位"@
    } else if a == ADDR_OPERATION_MODE {
        "0:位置伺服 1:电机恒速 2:PWM开环 3:步进伺服"@
    } else if a == ADDR_PROTECT_TORQUE {
        "过载保护后输出扭矩"@
    } else if a == ADDR_PROTECT_TIME {
        "过载保护计时"@
    } else if a == ADDR_OVERLOAD_TORQUE {
        "过载保护阈值"@
    } else if a == ADDR_SPEED_P {
        "速度环比例系数"@
    } else if a == ADDR_OVERCURRENT_TIME {
        "最大2540ms"@
    } else if a == ADDR_SPEED_I {
        "速度环积分系数"@
    } else if a == ADDR_TORQUE_SWITCH {
        "0:关闭 1:打开 2:阻尼 128:校正为2048"@
    } else if a == ADDR_ACCELERATION {
        "加减速度"@
    } else if a == ADDR_TARGET_POSITION {
        "绝对位置控制"@
    } else if a == ADDR_RUNNING_TIME {
        "PWM模式用"@
    } else if a == ADDR_RUNNING_SPEED {
        "50步/s=0.732RPM"@
    } else if a == ADDR_TORQUE_LIMIT {
        "最大扭矩输出限制"@
    } else if a == ADDR_LOCK_FLAG {
        "0:EPROM可写 1:EPROM只读"@
    } else if a == ADDR_CURRENT_POSITION {
        "当前位置反馈"@
    } else if a == ADDR_CURRENT_SPEED {
        "当前速度反馈"@
    } else if a == ADDR_CURRENT_LOAD {
        "当前负载反馈"@
    } else if a == ADDR_CURRENT_VOLTAGE {
        "当前电压反馈"@
    } else if a == ADDR_CURRENT_TEMP {
        "当前温度反馈"@
    } else if a == ADDR_ASYNC_WRITE_FLAG {
        "异步写标志位"@
    } else if a == ADDR_SERVO_STATUS {
        "错误状态"@
    } else if a == ADDR_MOVING_FLAG {
        "1:运动中 0:停止"@
    } else if a == ADDR_CURRENT_CURRENT {
        "最大3250mA"@
    } else {
        Seq::empty()
    }
}

/// The table lists exactly the datasheet's registers, in the same order.
pub proof fn lemma_table_addresses()
    ensures
        register_table_spec().len() == datasheet_addresses().len(),
        forall|i: int|
            0 <= i < register_table_spec().len() ==> #[trigger] register_table_spec()[i].address
                == datasheet_addresses()[i],
{
    let t = register_table_spec();
    let d = datasheet_addresses();
    assert forall|i: int| 0 <= i < t.len() implies #[trigger] t[i].address == d[i] by {}
}

/// Every register that holds a 16-bit quantity is two bytes wide, every
/// other one is one byte wide.
pub proof fn lemma_table_widths()
    ensures
        forall|i: int|
            0 <= i < register_table_spec().len() ==> #[trigger] register_table_spec()[i].bytes == (
            if is_word_register(register_table_spec()[i].address) {
                2u8
            } else {
                1u8
            }),
{
    let t = register_table_spec();
    assert forall|i: int| 0 <= i < t.len() implies #[trigger] t[i].bytes == (if is_word_register(
        t[i].address,
    ) {
        2u8
    } else {
        1u8
    }) by {}
}

/// Every register has the datasheet's factory default; it is writable
/// exactly when the datasheet gives it a range, and then its range is that
/// one.
pub proof fn lemma_table_defaults_and_ranges()
    ensures
        forall|i: int|
            0 <= i < register_table_spec().len() ==> {
                let r = #[trigger] register_table_spec()[i];
                &&& r.default_value == datasheet_default(r.address)
                &&& match datasheet_range(r.address) {
                    Some((lo, hi)) => read_write(r) && r.min_value == Some(lo) && r.max_value
                        == Some(hi),
                    None => read_only(r) && r.min_value is None && r.max_value is None,
                }
            },
{
    let t = register_table_spec();
    assert forall|i: int| 0 <= i < t.len() implies {
        let r = #[trigger] t[i];
        &&& r.default_value == datasheet_default(r.address)
        &&& match datasheet_range(r.address) {
            Some((lo, hi)) => read_write(r) && r.min_value == Some(lo) && r.max_value == Some(hi),
            None => read_only(r) && r.min_value is None && r.max_value is None,
        }
    } by {}
}

/// Every register has the datasheet's name, unit and description.
pub proof fn lemma_table_texts()
    ensures
        forall|i: int|
            0 <= i < register_table_spec().len() ==> {
                let r = #[trigger] register_table_spec()[i];
                &&& r.name == datasheet_name(r.address)
                &&& r.unit == datasheet_unit(r.address)
                &&& r.description == datasheet_description(r.address)
            },
{
    let t = register_table_spec();
    assert forall|i: int| 0 <= i < t.len() implies {
        let r = #[trigger] t[i];
        &&& r.name == datasheet_name(r.address)
        &&& r.unit == datasheet_unit(r.address)
        &&& r.description == datasheet_description(r.address)
    } by {}
}

/// The present position, speed, load and current are two bytes wide, so a
/// read of the whole table asks for both bytes of each.
pub proof fn lemma_feedback_registers_are_words()
    ensures
        forall|i: int|
            0 <= i < register_table_spec().len() && (register_table_spec()[i].address
                == ADDR_CURRENT_POSITION || register_table_spec()[i].address == ADDR_CURRENT_SPEED
                || register_table_spec()[i].address == ADDR_CURRENT_LOAD
                || register_table_spec()[i].address == ADDR_CURRENT_CURRENT) ==> #[trigger] register_table_spec()[i].bytes == 2,
{
    lemma_table_widths();
}

} // verus!
