//! A Discordian calendar library: conversion of a Gregorian ordinal day and
//! astronomical year into a Discordian date, and a scanner that splits a
//! strftime-like format string into display items.

pub mod ddate;
pub mod dtime;
pub mod format;
pub mod input;
