//! The text of the files a C# workspace starts from.

use vstd::prelude::*;

verus! {

/// The class that a calculator kata asks the user to complete.
pub open spec fn calculator_program() -> Seq<char> {
    r#"public static class Calculator {
    public static int AddNumbers(string num1, string num2) {
        // Implement the addition logic here
        // ...
    }
}"#@
}

/// The tests that a completed calculator has to pass.
pub open spec fn calculator_tests() -> Seq<char> {
    r#"using NUnit.Framework;

[TestFixture]
public class CalculatorTests {
    [Test]
    public void TestAddNumbers() {
        Assert.AreEqual(5, Calculator.AddNumbers("2", "3"));
        Assert.AreEqual(5, Calculator.AddNumbers("-5", "10"));
        Assert.AreEqual(0, Calculator.AddNumbers("0", "0"));
        // Add more test cases here
    }
}"#@
}

/// What stands in both files of a kata that brings no exercise of its own.
pub open spec fn placeholder() -> Seq<char> {
    r#"
        // TODO
    "#@
}

/// The project file, which names the test framework's packages.
pub open spec fn project_file() -> Seq<char> {
    r#"<?xml version="1.0" encoding="utf-8"?>
<Project Sdk="Microsoft.NET.Sdk">

    <PropertyGroup>
        <OutputType>Exe</OutputType>
        <TargetFramework>net6.0</TargetFramework>
        <ImplicitUsings>enable</ImplicitUsings>
        <Nullable>enable</Nullable>
  </PropertyGroup>

  <ItemGroup>
        <PackageReference Include="Microsoft.NET.Test.Sdk" Version="16.11.0" />
        <PackageReference Include="NUnit" Version="3.13.0" />
        <PackageReference Include="NUnit3TestAdapter" Version="4.0.0" />
  </ItemGroup>

</Project>"#@
}

/// The program file and the test file of a calculator kata.
pub fn generate_csharp_calculator_files() -> (r: (String, String))
    ensures
        r.0@ == calculator_program(),
        r.1@ == calculator_tests(),
{
    let program_file_content = r#"public static class Calculator {
    public static int AddNumbers(string num1, string num2) {
        // Implement the addition logic here
        // ...
    }
}"#.to_owned();
    let test_file_content = r#"using NUnit.Framework;

[TestFixture]
public class CalculatorTests {
    [Test]
    public void TestAddNumbers() {
        Assert.AreEqual(5, Calculator.AddNumbers("2", "3"));
        Assert.AreEqual(5, Calculator.AddNumbers("-5", "10"));
        Assert.AreEqual(0, Calculator.AddNumbers("0", "0"));
        // Add more test cases here
    }
}"#.to_owned();
    (program_file_content, test_file_content)
}

/// The program file and the test file of a data-structures kata.
pub fn generate_csharp_dsa_files() -> (r: (String, String))
    ensures
        r.0@ == placeholder(),
        r.1@ == placeholder(),
{
    let program_file_content = r#"
        // TODO
    "#.to_owned();
    let test_file_content = r#"
        // TODO
    "#.to_owned();
    (program_file_content, test_file_content)
}

/// The project file of every C# workspace.
pub fn generate_project_file() -> (r: String)
    ensures
        r@ == project_file(),
{
    r#"<?xml version="1.0" encoding="utf-8"?>
<Project Sdk="Microsoft.NET.Sdk">

    <PropertyGroup>
        <OutputType>Exe</OutputType>
        <TargetFramework>net6.0</TargetFramework>
        <ImplicitUsings>enable</ImplicitUsings>
        <Nullable>enable</Nullable>
  </PropertyGroup>

  <ItemGroup>
        <PackageReference Include="Microsoft.NET.Test.Sdk" Version="16.11.0" />
        <PackageReference Include="NUnit" Version="3.13.0" />
        <PackageReference Include="NUnit3TestAdapter" Version="4.0.0" />
  </ItemGroup>

</Project>"#.to_owned()
}

} // verus!
